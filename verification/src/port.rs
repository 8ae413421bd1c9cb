//! Device access: byte-wide I/O ports and memory-mapped registers, with the
//! accesses a driver makes recorded as events.
use vstd::prelude::*;

verus! {

/// One byte-wide port access.
#[derive(Debug, Clone, Copy, PartialEq, Eq, Structural)]
pub enum PortEvent {
    Read { port: u16, value: u8 },
    Write { port: u16, value: u8 },
}

/// Byte-wide I/O ports, with the accesses made so far.
pub trait PortIo {
    /// The accesses made so far.
    spec fn events(&self) -> Seq<PortEvent>;

    /// Reads a byte from `port`.
    fn read_port(&mut self, port: u16) -> (value: u8)
        ensures
            final(self).events() == old(self).events().push(PortEvent::Read { port, value });

    /// Writes a byte to `port`.
    fn write_port(&mut self, port: u16, value: u8)
        ensures
            final(self).events() == old(self).events().push(PortEvent::Write { port, value });
}

/// The machine's byte-wide I/O ports, as the hardware layer gives them.
pub trait RawPorts {
    /// Reads a byte from `port`.
    fn read_port(&mut self, port: u16) -> u8;

    /// Writes a byte to `port`.
    fn write_port(&mut self, port: u16, value: u8);
}

/// Hardware ports with every access recorded: each read as the value the
/// hardware gave, each write as issued.
pub struct LoggedPorts<R: RawPorts> {
    pub raw: R,
    pub log: Ghost<Seq<PortEvent>>,
}

impl<R: RawPorts> LoggedPorts<R> {
    /// `raw`, with no access recorded yet.
    pub fn new(raw: R) -> (p: Self)
        ensures
            p.raw == raw,
            p.log@ == Seq::<PortEvent>::empty(),
    {
        LoggedPorts { raw, log: Ghost(Seq::empty()) }
    }
}

impl<R: RawPorts> PortIo for LoggedPorts<R> {
    open spec fn events(&self) -> Seq<PortEvent> {
        self.log@
    }

    fn read_port(&mut self, port: u16) -> (value: u8) {
        let value = self.raw.read_port(port);
        proof {
            self.log@ = self.log@.push(PortEvent::Read { port, value });
        }
        value
    }

    fn write_port(&mut self, port: u16, value: u8) {
        self.raw.write_port(port, value);
        proof {
            self.log@ = self.log@.push(PortEvent::Write { port, value });
        }
    }
}

/// Ports that record every access and read a fixed byte.
pub struct RecordingPorts {
    pub log: Vec<PortEvent>,
    pub input: u8,
}

impl PortIo for RecordingPorts {
    open spec fn events(&self) -> Seq<PortEvent> {
        self.log@
    }

    fn read_port(&mut self, port: u16) -> (value: u8) {
        let value = self.input;
        self.log.push(PortEvent::Read { port, value });
        value
    }

    fn write_port(&mut self, port: u16, value: u8) {
        self.log.push(PortEvent::Write { port, value });
    }
}

/// One access to a memory-mapped register, by its offset from the block's base.
#[derive(Debug, Clone, Copy, PartialEq, Eq, Structural)]
pub enum RegEvent {
    Read32 { offset: u64, value: u32 },
    Write32 { offset: u64, value: u32 },
    Read64 { offset: u64, value: u64 },
    Write64 { offset: u64, value: u64 },
    Write8 { offset: u64, value: u8 },
    Write16 { offset: u64, value: u16 },
}

/// A block of memory-mapped registers, with the accesses made so far.
pub trait RegisterIo {
    /// The accesses made so far.
    spec fn events(&self) -> Seq<RegEvent>;

    /// Reads the 32-bit register at `offset`.
    fn read32(&mut self, offset: u64) -> (value: u32)
        ensures
            final(self).events() == old(self).events().push(RegEvent::Read32 { offset, value });

    /// Writes the 32-bit register at `offset`.
    fn write32(&mut self, offset: u64, value: u32)
        ensures
            final(self).events() == old(self).events().push(RegEvent::Write32 { offset, value });

    /// Reads the 64-bit register at `offset`.
    fn read64(&mut self, offset: u64) -> (value: u64)
        ensures
            final(self).events() == old(self).events().push(RegEvent::Read64 { offset, value });

    /// Writes the 64-bit register at `offset`.
    fn write64(&mut self, offset: u64, value: u64)
        ensures
            final(self).events() == old(self).events().push(RegEvent::Write64 { offset, value });

    /// Writes the 8-bit register at `offset`.
    fn write8(&mut self, offset: u64, value: u8)
        ensures
            final(self).events() == old(self).events().push(RegEvent::Write8 { offset, value });

    /// Writes the 16-bit register at `offset`.
    fn write16(&mut self, offset: u64, value: u16)
        ensures
            final(self).events() == old(self).events().push(RegEvent::Write16 { offset, value });
}

/// A block of memory-mapped registers, as the hardware layer gives it.
pub trait RawRegisters {
    /// Reads the 32-bit register at `offset`.
    fn read32(&mut self, offset: u64) -> u32;

    /// Writes the 32-bit register at `offset`.
    fn write32(&mut self, offset: u64, value: u32);

    /// Reads the 64-bit register at `offset`.
    fn read64(&mut self, offset: u64) -> u64;

    /// Writes the 64-bit register at `offset`.
    fn write64(&mut self, offset: u64, value: u64);

    /// Writes the 8-bit register at `offset`.
    fn write8(&mut self, offset: u64, value: u8);

    /// Writes the 16-bit register at `offset`.
    fn write16(&mut self, offset: u64, value: u16);
}

/// Hardware registers with every access recorded: each read as the value
/// the hardware gave, each write as issued.
pub struct LoggedRegisters<R: RawRegisters> {
    pub raw: R,
    pub log: Ghost<Seq<RegEvent>>,
}

impl<R: RawRegisters> LoggedRegisters<R> {
    /// `raw`, with no access recorded yet.
    pub fn new(raw: R) -> (r: Self)
        ensures
            r.raw == raw,
            r.log@ == Seq::<RegEvent>::empty(),
    {
        LoggedRegisters { raw, log: Ghost(Seq::empty()) }
    }
}

impl<R: RawRegisters> RegisterIo for LoggedRegisters<R> {
    open spec fn events(&self) -> Seq<RegEvent> {
        self.log@
    }

    fn read32(&mut self, offset: u64) -> (value: u32) {
        let value = self.raw.read32(offset);
        proof {
            self.log@ = self.log@.push(RegEvent::Read32 { offset, value });
        }
        value
    }

    fn write32(&mut self, offset: u64, value: u32) {
        self.raw.write32(offset, value);
        proof {
            self.log@ = self.log@.push(RegEvent::Write32 { offset, value });
        }
    }

    fn read64(&mut self, offset: u64) -> (value: u64) {
        let value = self.raw.read64(offset);
        proof {
            self.log@ = self.log@.push(RegEvent::Read64 { offset, value });
        }
        value
    }

    fn write64(&mut self, offset: u64, value: u64) {
        self.raw.write64(offset, value);
        proof {
            self.log@ = self.log@.push(RegEvent::Write64 { offset, value });
        }
    }

    fn write8(&mut self, offset: u64, value: u8) {
        self.raw.write8(offset, value);
        proof {
            self.log@ = self.log@.push(RegEvent::Write8 { offset, value });
        }
    }

    fn write16(&mut self, offset: u64, value: u16) {
        self.raw.write16(offset, value);
        proof {
            self.log@ = self.log@.push(RegEvent::Write16 { offset, value });
        }
    }
}

/// Registers that record every access; 32-bit reads give `input32`, 64-bit
/// reads `input64`.
pub struct RecordingRegisters {
    pub log: Vec<RegEvent>,
    pub input32: u32,
    pub input64: u64,
}

impl RegisterIo for RecordingRegisters {
    open spec fn events(&self) -> Seq<RegEvent> {
        self.log@
    }

    fn read32(&mut self, offset: u64) -> (value: u32) {
        let value = self.input32;
        self.log.push(RegEvent::Read32 { offset, value });
        value
    }

    fn write32(&mut self, offset: u64, value: u32) {
        self.log.push(RegEvent::Write32 { offset, value });
    }

    fn read64(&mut self, offset: u64) -> (value: u64) {
        let value = self.input64;
        self.log.push(RegEvent::Read64 { offset, value });
        value
    }

    fn write64(&mut self, offset: u64, value: u64) {
        self.log.push(RegEvent::Write64 { offset, value });
    }

    fn write8(&mut self, offset: u64, value: u8) {
        self.log.push(RegEvent::Write8 { offset, value });
    }

    fn write16(&mut self, offset: u64, value: u16) {
        self.log.push(RegEvent::Write16 { offset, value });
    }
}

} // verus!
