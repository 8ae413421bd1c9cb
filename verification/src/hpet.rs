//! The HPET: enabling its main counter and turning counter ticks into
//! nanoseconds.
use vstd::prelude::*;
use crate::port::{RegEvent, RegisterIo};

verus! {

/// General capabilities register (period in femtoseconds in the high half).
pub const HPET_CAPABILITIES: u64 = 0x00;
/// General configuration register (bit 0 enables the main counter).
pub const HPET_CONFIGURATION: u64 = 0x10;
/// Main counter value register.
pub const HPET_MAIN_COUNTER: u64 = 0xF0;

/// The HPET on its register block.
pub struct Hpet<R> {
    pub regs: R,
}

/// Nanoseconds of `counter` ticks of `period_fs` femtoseconds, truncated to
/// 64 bits.
pub open spec fn ticks_to_nanos(counter: u64, period_fs: u32) -> u64 {
    ((counter as int * period_fs as int / 1_000_000) % 0x1_0000_0000_0000_0000) as u64
}

/// The value a register access carried.
pub open spec fn access_value(e: RegEvent) -> u64 {
    match e {
        RegEvent::Read32 { value, .. } => value as u64,
        RegEvent::Write32 { value, .. } => value as u64,
        RegEvent::Read64 { value, .. } => value,
        RegEvent::Write64 { value, .. } => value,
        RegEvent::Write8 { value, .. } => value as u64,
        RegEvent::Write16 { value, .. } => value as u64,
    }
}

impl<R: RegisterIo> Hpet<R> {
    pub fn new(regs: R) -> (h: Self)
        ensures
            h.regs == regs,
    {
        Hpet { regs }
    }

    /// Enables the main counter: the configuration register with bit 0 set.
    pub fn init(&mut self)
        ensures
            exists|c: u64| final(self).regs.events() == old(self).regs.events() + #[trigger] seq![
                RegEvent::Read64 { offset: HPET_CONFIGURATION, value: c },
                RegEvent::Write64 { offset: HPET_CONFIGURATION, value: c | 1 },
            ],
    {
        let config = self.regs.read64(HPET_CONFIGURATION);
        self.regs.write64(HPET_CONFIGURATION, config | 1);
        assert(self.regs.events() =~= old(self).regs.events() + seq![
            RegEvent::Read64 { offset: HPET_CONFIGURATION, value: config },
            RegEvent::Write64 { offset: HPET_CONFIGURATION, value: config | 1 },
        ]);
    }

    /// The main counter.
    pub fn read_main_counter(&mut self) -> (c: u64)
        ensures
            final(self).regs.events() == old(self).regs.events().push(RegEvent::Read64 { offset: HPET_MAIN_COUNTER, value: c }),
    {
        self.regs.read64(HPET_MAIN_COUNTER)
    }

    /// The tick period in femtoseconds: the high half of the capabilities.
    pub fn get_period_fs(&mut self) -> (p: u32)
        ensures
            final(self).regs.events() == old(self).regs.events().push(
                RegEvent::Read64 { offset: HPET_CAPABILITIES, value: access_value(final(self).regs.events().last()) },
            ),
            p == access_value(final(self).regs.events().last()) / 0x1_0000_0000,
    {
        let caps = self.regs.read64(HPET_CAPABILITIES);
        assert(caps >> 32 == caps / 0x1_0000_0000) by (bit_vector);
        (caps >> 32) as u32
    }

    /// Time since the counter started, in nanoseconds: counter times period,
    /// over a million.
    pub fn get_nanoseconds(&mut self) -> (ns: u64)
        ensures
            ({
                let n = old(self).regs.events().len();
                let e = final(self).regs.events();
                let counter = access_value(e[n as int]);
                let caps = access_value(e[n as int + 1]);
                &&& e == old(self).regs.events() + seq![
                    RegEvent::Read64 { offset: HPET_MAIN_COUNTER, value: counter },
                    RegEvent::Read64 { offset: HPET_CAPABILITIES, value: caps },
                ]
                &&& ns == ticks_to_nanos(counter, (caps / 0x1_0000_0000) as u32)
            }),
    {
        let counter = self.read_main_counter();
        let period = self.get_period_fs();
        assert(self.regs.events() =~= old(self).regs.events() + seq![
            RegEvent::Read64 { offset: HPET_MAIN_COUNTER, value: counter },
            RegEvent::Read64 { offset: HPET_CAPABILITIES, value: access_value(self.regs.events().last()) },
        ]);
        nanoseconds(counter, period)
    }
}

/// Nanoseconds of `counter` ticks of `period_fs` femtoseconds.
pub fn nanoseconds(counter: u64, period_fs: u32) -> (ns: u64)
    ensures
        ns == ticks_to_nanos(counter, period_fs),
{
    assert(counter as int * period_fs as int <= 0xFFFF_FFFF_FFFF_FFFF * 0xFFFF_FFFF) by (nonlinear_arith);
    let product: u128 = counter as u128 * period_fs as u128;
    let q: u128 = product / 1_000_000;
    assert(q as u64 == q % 0x1_0000_0000_0000_0000) by (bit_vector);
    q as u64
}

} // verus!
