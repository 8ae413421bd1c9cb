//! Bosch BMI160 accelerometer / gyroscope.
use vstd::prelude::*;
use crate::i2c::{I2cError, I2cMaster};
use crate::i2c::bus::{
    I2cManager, smbus_read_block, smbus_read_byte, smbus_write_byte, asked, block_read_trace, block_result,
    byte_reply, lemma_transfers_chain, only_transfers_on, transfers_since, unit_reply,
};

verus! {

/// The sensor's I²C address.
pub const BMI160_I2C_ADDR: u8 = 0x68;
/// Chip ID register.
pub const REG_CHIP_ID: u8 = 0x00;
/// First accelerometer data register (X low byte).
pub const REG_DATA_ACCEL_X: u8 = 0x12;
/// First gyroscope data register.
pub const REG_DATA_GYRO_X: u8 = 0x0C;
/// Command register.
pub const REG_CMD: u8 = 0x7E;
/// The chip ID a BMI160 reports.
pub const BMI160_CHIP_ID: u8 = 0xD1;

/// A little-endian signed 16-bit value.
pub open spec fn le_i16(lo: u8, hi: u8) -> i16 {
    (lo as u16 | ((hi as u16) << 8u16)) as i16
}

/// The three axes of a 6-byte accelerometer block.
pub open spec fn accel_axes(b: Seq<u8>) -> (i16, i16, i16) {
    (le_i16(b[0], b[1]), le_i16(b[2], b[3]), le_i16(b[4], b[5]))
}

/// Decodes a 6-byte accelerometer block into (x, y, z).
pub fn decode_accel(b: &Vec<u8>) -> (r: (i16, i16, i16))
    requires
        b@.len() == 6,
    ensures
        r == accel_axes(b@),
{
    let x = (b[0] as u16 | ((b[1] as u16) << 8u16)) as i16;
    let y = (b[2] as u16 | ((b[3] as u16) << 8u16)) as i16;
    let z = (b[4] as u16 | ((b[5] as u16) << 8u16)) as i16;
    (x, y, z)
}

/// The transfers and answer of an initialisation: the chip ID read; when it
/// is 0xD1, the accelerometer command (0x11) written, and only if that
/// succeeded the gyroscope command (0x15); the first error, InvalidParameter
/// for another chip ID, or success.
pub open spec fn init_trace(ts: Seq<(u8, Seq<u8>, nat, Result<usize, I2cError>, Seq<u8>)>, r: Result<(), I2cError>) -> bool {
    &&& ts.len() >= 1
    &&& asked(ts[0], BMI160_I2C_ADDR, seq![REG_CHIP_ID], 1)
    &&& match byte_reply(ts[0]) {
        Err(e) => ts.len() == 1 && r == Err::<(), I2cError>(e),
        Ok(id) => if id != BMI160_CHIP_ID {
            ts.len() == 1 && r == Err::<(), I2cError>(I2cError::InvalidParameter)
        } else {
            &&& ts.len() >= 2
            &&& asked(ts[1], BMI160_I2C_ADDR, seq![REG_CMD, 0x11u8], 0)
            &&& match ts[1].3 {
                Err(e) => ts.len() == 2 && r == Err::<(), I2cError>(e),
                Ok(_) => ts.len() == 3 && asked(ts[2], BMI160_I2C_ADDR, seq![REG_CMD, 0x15u8], 0)
                    && r == unit_reply(ts[2]),
            }
        },
    }
}

/// What an accelerometer read answers for its block read: the three axes of
/// the block, or the read's error.
pub open spec fn accel_reply(ts: Seq<(u8, Seq<u8>, nat, Result<usize, I2cError>, Seq<u8>)>) -> Result<(i16, i16, i16), I2cError> {
    match block_result(ts, 6) {
        Ok(_) => Ok(accel_axes(ts.last().4)),
        Err(e) => Err(e),
    }
}

/// The sensor on a bus.
pub struct Bmi160 {
    pub bus_id: usize,
}

impl Bmi160 {
    /// The sensor on bus `bus_id`.
    pub fn new(bus_id: usize) -> (s: Self)
        ensures
            s.bus_id == bus_id,
    {
        Bmi160 { bus_id }
    }

    /// Checks the chip ID (InvalidParameter when it is not 0xD1), then
    /// puts the accelerometer (0x11) and the gyroscope (0x15) in normal mode.
    pub fn init<M: I2cMaster>(&self, mgr: &mut I2cManager<M>) -> (r: Result<(), I2cError>)
        ensures
            final(mgr).buses@.len() == old(mgr).buses@.len(),
            self.bus_id >= old(mgr).buses@.len() ==> r == Err::<(), I2cError>(I2cError::InvalidParameter)
                && final(mgr).buses@ == old(mgr).buses@,
            self.bus_id < old(mgr).buses@.len() ==> only_transfers_on(old(mgr).buses@, final(mgr).buses@, self.bus_id as int)
                && init_trace(transfers_since(old(mgr).buses@, final(mgr).buses@, self.bus_id as int), r),
    {
        let ghost b0 = mgr.buses@;
        let chip_id = match smbus_read_byte(mgr, self.bus_id, BMI160_I2C_ADDR, REG_CHIP_ID) {
            Ok(v) => v,
            Err(e) => {
                return Err(e);
            },
        };
        if chip_id != BMI160_CHIP_ID {
            return Err(I2cError::InvalidParameter);
        }
        let ghost b1 = mgr.buses@;
        match smbus_write_byte(mgr, self.bus_id, BMI160_I2C_ADDR, REG_CMD, 0x11) {
            Ok(_) => {},
            Err(e) => {
                proof {
                    lemma_transfers_chain(b0, b1, mgr.buses@, self.bus_id as int);
                }
                return Err(e);
            },
        }
        let ghost b2 = mgr.buses@;
        proof {
            lemma_transfers_chain(b0, b1, b2, self.bus_id as int);
        }
        let r = match smbus_write_byte(mgr, self.bus_id, BMI160_I2C_ADDR, REG_CMD, 0x15) {
            Ok(_) => Ok(()),
            Err(e) => Err(e),
        };
        proof {
            lemma_transfers_chain(b0, b2, mgr.buses@, self.bus_id as int);
        }
        r
    }

    /// Reads the accelerometer: six bytes from 0x12, three little-endian axes.
    pub fn read_accel<M: I2cMaster>(&self, mgr: &mut I2cManager<M>) -> (r: Result<(i16, i16, i16), I2cError>)
        ensures
            final(mgr).buses@.len() == old(mgr).buses@.len(),
            self.bus_id >= old(mgr).buses@.len() ==> r == Err::<(i16, i16, i16), I2cError>(I2cError::InvalidParameter)
                && final(mgr).buses@ == old(mgr).buses@,
            self.bus_id < old(mgr).buses@.len() ==> ({
                let ts = transfers_since(old(mgr).buses@, final(mgr).buses@, self.bus_id as int);
                &&& only_transfers_on(old(mgr).buses@, final(mgr).buses@, self.bus_id as int)
                &&& block_read_trace(ts, BMI160_I2C_ADDR, REG_DATA_ACCEL_X, 6)
                &&& r == accel_reply(ts)
            }),
    {
        let mut buf: Vec<u8> = vec![0u8, 0u8, 0u8, 0u8, 0u8, 0u8];
        match smbus_read_block(mgr, self.bus_id, BMI160_I2C_ADDR, REG_DATA_ACCEL_X, &mut buf) {
            Ok(_) => Ok(decode_accel(&buf)),
            Err(e) => Err(e),
        }
    }
}

} // verus!
