//! The local APIC: its register map, start-up programming and end of
//! interrupt; and masking the legacy 8259 PICs.
use vstd::prelude::*;
use crate::port::{PortEvent, PortIo, RegEvent, RegisterIo};

verus! {

/// The local APIC's physical base address.
pub const DEFAULT_APIC_PHYS_BASE: u64 = 0xFEE0_0000;

/// The local APIC registers.
#[derive(Debug, Clone, Copy, PartialEq, Eq, Structural)]
pub enum Register {
    Id,
    Version,
    TaskPriority,
    ArbitrationPriority,
    ProcessorPriority,
    EndOfInterrupt,
    RemoteRead,
    LogicalDestination,
    DestinationFormat,
    SpuriousInterruptVector,
    InService,
    TriggerMode,
    InterruptRequest,
    ErrorStatus,
    LvtCorrectedMachineCheckInterrupt,
    InterruptCommand,
    LvtTimer,
    LvtThermalSensor,
    LvtPerformanceMonitoringCounters,
    LvtLint0,
    LvtLint1,
    LvtError,
    InitialCount,
    CurrentCount,
    DivideConfiguration,
}

/// Each register's offset from the APIC base.
pub open spec fn register_offset(r: Register) -> u64 {
    match r {
        Register::Id => 0x20,
        Register::Version => 0x30,
        Register::TaskPriority => 0x80,
        Register::ArbitrationPriority => 0x90,
        Register::ProcessorPriority => 0xA0,
        Register::EndOfInterrupt => 0xB0,
        Register::RemoteRead => 0xC0,
        Register::LogicalDestination => 0xD0,
        Register::DestinationFormat => 0xE0,
        Register::SpuriousInterruptVector => 0xF0,
        Register::InService => 0x100,
        Register::TriggerMode => 0x180,
        Register::InterruptRequest => 0x200,
        Register::ErrorStatus => 0x280,
        Register::LvtCorrectedMachineCheckInterrupt => 0x2F0,
        Register::InterruptCommand => 0x300,
        Register::LvtTimer => 0x320,
        Register::LvtThermalSensor => 0x330,
        Register::LvtPerformanceMonitoringCounters => 0x340,
        Register::LvtLint0 => 0x350,
        Register::LvtLint1 => 0x360,
        Register::LvtError => 0x370,
        Register::InitialCount => 0x380,
        Register::CurrentCount => 0x390,
        Register::DivideConfiguration => 0x3E0,
    }
}

impl Register {
    /// The register's offset from the APIC base.
    pub fn offset(self) -> (off: u64)
        ensures
            off == register_offset(self),
    {
        match self {
            Register::Id => 0x20,
            Register::Version => 0x30,
            Register::TaskPriority => 0x80,
            Register::ArbitrationPriority => 0x90,
            Register::ProcessorPriority => 0xA0,
            Register::EndOfInterrupt => 0xB0,
            Register::RemoteRead => 0xC0,
            Register::LogicalDestination => 0xD0,
            Register::DestinationFormat => 0xE0,
            Register::SpuriousInterruptVector => 0xF0,
            Register::InService => 0x100,
            Register::TriggerMode => 0x180,
            Register::InterruptRequest => 0x200,
            Register::ErrorStatus => 0x280,
            Register::LvtCorrectedMachineCheckInterrupt => 0x2F0,
            Register::InterruptCommand => 0x300,
            Register::LvtTimer => 0x320,
            Register::LvtThermalSensor => 0x330,
            Register::LvtPerformanceMonitoringCounters => 0x340,
            Register::LvtLint0 => 0x350,
            Register::LvtLint1 => 0x360,
            Register::LvtError => 0x370,
            Register::InitialCount => 0x380,
            Register::CurrentCount => 0x390,
            Register::DivideConfiguration => 0x3E0,
        }
    }
}

/// The spurious vector the APIC is enabled with.
pub const SPURIOUS_VECTOR: u32 = 0xFF;
/// Divide configuration: divide by 16.
pub const TIMER_DIVIDE_16: u32 = 0x3;
/// Timer LVT: periodic mode, vector 32.
pub const TIMER_LVT_PERIODIC_32: u32 = 0x20020;
/// The timer's initial count.
pub const TIMER_INITIAL_COUNT: u32 = 10_000_000;

/// Start-up: read the spurious vector register (giving `svr`), write it back
/// with the enable bit and the spurious vector, then set the timer's divider,
/// periodic mode on vector 32 and its initial count.
pub open spec fn init_trace(svr: u32) -> Seq<RegEvent> {
    seq![
        RegEvent::Read32 { offset: 0xF0, value: svr },
        RegEvent::Write32 { offset: 0xF0, value: svr | 0x100 | SPURIOUS_VECTOR },
        RegEvent::Write32 { offset: 0x3E0, value: TIMER_DIVIDE_16 },
        RegEvent::Write32 { offset: 0x320, value: TIMER_LVT_PERIODIC_32 },
        RegEvent::Write32 { offset: 0x380, value: TIMER_INITIAL_COUNT },
    ]
}

/// The local APIC on its register block.
pub struct LocalApic<R> {
    pub regs: R,
}

impl<R: RegisterIo> LocalApic<R> {
    pub fn new(regs: R) -> (a: Self)
        ensures
            a.regs == regs,
    {
        LocalApic { regs }
    }

    /// Reads a register.
    pub fn read(&mut self, reg: Register) -> (v: u32)
        ensures
            final(self).regs.events() == old(self).regs.events().push(RegEvent::Read32 { offset: register_offset(reg), value: v }),
    {
        self.regs.read32(reg.offset())
    }

    /// Writes a register.
    pub fn write(&mut self, reg: Register, value: u32)
        ensures
            final(self).regs.events() == old(self).regs.events().push(RegEvent::Write32 { offset: register_offset(reg), value }),
    {
        self.regs.write32(reg.offset(), value)
    }

    /// Enables the APIC and starts its periodic timer.
    pub fn init(&mut self)
        ensures
            exists|svr: u32| final(self).regs.events() == old(self).regs.events() + #[trigger] init_trace(svr),
    {
        let svr = self.read(Register::SpuriousInterruptVector);
        self.write(Register::SpuriousInterruptVector, svr | 0x100 | SPURIOUS_VECTOR);
        self.write(Register::DivideConfiguration, TIMER_DIVIDE_16);
        self.write(Register::LvtTimer, TIMER_LVT_PERIODIC_32);
        self.write(Register::InitialCount, TIMER_INITIAL_COUNT);
        assert(self.regs.events() =~= old(self).regs.events() + init_trace(svr));
    }

    /// Signals end of interrupt: a zero written to the EOI register.
    pub fn end_of_interrupt(&mut self)
        ensures
            final(self).regs.events() == old(self).regs.events().push(RegEvent::Write32 { offset: 0xB0, value: 0 }),
    {
        self.write(Register::EndOfInterrupt, 0);
    }
}

/// Masks every line of both 8259 PICs (slave data port first).
pub fn disable_pic<P: PortIo>(ports: &mut P)
    ensures
        final(ports).events() == old(ports).events() + seq![
            PortEvent::Write { port: 0xA1, value: 0xFF },
            PortEvent::Write { port: 0x21, value: 0xFF },
        ],
{
    ports.write_port(0xA1, 0xFF);
    ports.write_port(0x21, 0xFF);
    assert(ports.events() =~= old(ports).events() + seq![
        PortEvent::Write { port: 0xA1, value: 0xFF },
        PortEvent::Write { port: 0x21, value: 0xFF },
    ]);
}

} // verus!
