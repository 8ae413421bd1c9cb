//! The I²C / SMBus / DDC subsystem: error and speed types, bus messages, the
//! bit-banged GPIO master, the SMBus host controller protocol and the EDID
//! parser.
pub mod any;
pub mod scripted;
pub mod bitbang;
pub mod bus;
pub mod edid;
pub mod smbus;
pub mod smbus_host;

use vstd::prelude::*;

verus! {

/// Why an I²C transfer failed.
#[derive(Debug, Clone, Copy, PartialEq, Eq, Structural)]
pub enum I2cError {
    BusBusy,
    NackAddress,
    NackData,
    ArbitrationLost,
    Timeout,
    InvalidParameter,
    DeviceNotReady,
    ControllerBusy,
}

/// The text shown for an error.
pub open spec fn i2c_error_text(e: I2cError) -> Seq<char> {
    match e {
        I2cError::BusBusy => "I2C bus busy"@,
        I2cError::NackAddress => "NACK on address phase"@,
        I2cError::NackData => "NACK on data phase"@,
        I2cError::ArbitrationLost => "arbitration lost"@,
        I2cError::Timeout => "timeout"@,
        I2cError::InvalidParameter => "invalid parameter"@,
        I2cError::DeviceNotReady => "device not ready"@,
        I2cError::ControllerBusy => "controller busy"@,
    }
}

impl I2cError {
    /// The text shown for this error.
    pub fn message(&self) -> (s: &'static str)
        ensures
            s@ == i2c_error_text(*self),
    {
        match self {
            I2cError::BusBusy => "I2C bus busy",
            I2cError::NackAddress => "NACK on address phase",
            I2cError::NackData => "NACK on data phase",
            I2cError::ArbitrationLost => "arbitration lost",
            I2cError::Timeout => "timeout",
            I2cError::InvalidParameter => "invalid parameter",
            I2cError::DeviceNotReady => "device not ready",
            I2cError::ControllerBusy => "controller busy",
        }
    }
}

/// Bus clock rates.
#[derive(Debug, Clone, Copy, PartialEq, Eq, Structural)]
pub enum I2cSpeed {
    /// 100 kHz
    Standard,
    /// 400 kHz
    Fast,
    /// 1 MHz
    FastPlus,
    /// 3.4 MHz
    HighSpeed,
}

/// Half-period delay of a bus speed, in microseconds.
pub open spec fn speed_delay_us(s: I2cSpeed) -> u32 {
    match s {
        I2cSpeed::Standard => 5,
        I2cSpeed::Fast => 2,
        I2cSpeed::FastPlus => 1,
        I2cSpeed::HighSpeed => 0,
    }
}

impl I2cSpeed {
    /// Half-period delay of this speed, in microseconds (0: a short spin).
    pub fn delay_us(&self) -> (d: u32)
        ensures
            d == speed_delay_us(*self),
    {
        match self {
            I2cSpeed::Standard => 5,
            I2cSpeed::Fast => 2,
            I2cSpeed::FastPlus => 1,
            I2cSpeed::HighSpeed => 0,
        }
    }
}

/// One message of a combined transfer (joined by repeated START).
#[derive(Debug, Clone)]
pub struct I2cMessage {
    /// 7-bit address
    pub address: u8,
    /// true: read, false: write
    pub read: bool,
    pub data: Vec<u8>,
}

impl I2cMessage {
    /// A write of `data` to `addr`.
    pub fn new_write(addr: u8, data: &[u8]) -> (m: Self)
        ensures
            m.address == addr,
            !m.read,
            m.data@ == data@,
    {
        I2cMessage { address: addr, read: false, data: vstd::slice::slice_to_vec(data) }
    }

    /// A read of `len` bytes from `addr`, into a zeroed buffer.
    pub fn new_read(addr: u8, len: usize) -> (m: Self)
        ensures
            m.address == addr,
            m.read,
            m.data@ == Seq::new(len as nat, |i: int| 0u8),
    {
        let mut data: Vec<u8> = Vec::new();
        let mut i: usize = 0;
        while i < len
            invariant
                i <= len,
                data@ == Seq::new(i as nat, |k: int| 0u8),
            decreases len - i,
        {
            data.push(0u8);
            i = i + 1;
            assert(data@ =~= Seq::new(i as nat, |k: int| 0u8));
        }
        I2cMessage { address: addr, read: true, data }
    }
}

/// A bus master: the hardware (or software) that runs transfers on one bus.
pub trait I2cMaster {
    /// The transfers asked of this master so far: the address, the bytes
    /// written, the length of the read buffer, the result and the buffer
    /// afterwards.
    spec fn transfers(&self) -> Seq<(u8, Seq<u8>, nat, Result<usize, I2cError>, Seq<u8>)>;

    /// The probes asked of this master so far: the address and the answer.
    spec fn probes(&self) -> Seq<(u8, bool)>;

    /// Name of this controller.
    fn name(&self) -> &'static str;

    /// One transfer: a write of `write_buf` to `addr`, then a read into
    /// `read_buf` after a repeated START; the number of bytes moved.
    fn transfer(&mut self, addr: u8, write_buf: &[u8], read_buf: &mut Vec<u8>) -> (r: Result<usize, I2cError>)
        requires
            write_buf@.len() + old(read_buf)@.len() <= usize::MAX,
        ensures
            final(read_buf)@.len() == old(read_buf)@.len(),
            final(self).transfers() == old(self).transfers().push(
                (addr, write_buf@, old(read_buf)@.len(), r, final(read_buf)@),
            ),
            final(self).probes() == old(self).probes();

    /// Sets the bus clock.
    fn set_speed(&mut self, speed: I2cSpeed)
        ensures
            final(self).transfers() == old(self).transfers(),
            final(self).probes() == old(self).probes();

    /// Whether a device answers at `addr`.
    fn probe(&mut self, addr: u8) -> (present: bool)
        ensures
            final(self).probes() == old(self).probes().push((addr, present)),
            final(self).transfers() == old(self).transfers();
}

/// The DDC2B address that monitors answer EDID reads on.
pub const DDC_ADDR: u8 = 0x50;

} // verus!
