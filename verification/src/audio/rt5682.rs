//! Realtek RT5682 audio codec.
use vstd::prelude::*;
use crate::i2c::{I2cError, I2cMaster};
use crate::i2c::bus::{I2cManager, asked, lemma_transfers_chain, only_transfers_on, transfers_since};

verus! {

/// The codec's I²C address.
pub const RT5682_I2C_ADDR: u8 = 0x1A;
/// Reset register.
pub const REG_RESET: u16 = 0x0000;
/// Power management register 1.
pub const REG_PWR_MGMT_1: u16 = 0x0001;
/// PLL register 1.
pub const REG_PLL_1: u16 = 0x0002;
/// Chip ID register.
pub const REG_CHIP_ID: u16 = 0x0003;

/// A 16-bit value as two big-endian bytes.
pub open spec fn be16(v: u16) -> Seq<u8> {
    seq![(v / 256) as u8, (v % 256) as u8]
}

/// The big-endian word of two bytes.
pub open spec fn be_word(b: Seq<u8>) -> u16 {
    (b[0] * 256 + b[1]) as u16
}

/// The transfers and answer of an initialisation: the reset written (0 to
/// register 0), then the chip ID register read, then 0x8000 written to power
/// management 1, each only if the one before succeeded; the first error, or
/// the chip ID read.
pub open spec fn init_trace(ts: Seq<(u8, Seq<u8>, nat, Result<usize, I2cError>, Seq<u8>)>, r: Result<u16, I2cError>) -> bool {
    &&& ts.len() >= 1
    &&& asked(ts[0], RT5682_I2C_ADDR, be16(REG_RESET) + be16(0), 0)
    &&& match ts[0].3 {
        Err(e) => ts.len() == 1 && r == Err::<u16, I2cError>(e),
        Ok(_) => {
            &&& ts.len() >= 2
            &&& asked(ts[1], RT5682_I2C_ADDR, be16(REG_CHIP_ID), 2)
            &&& match ts[1].3 {
                Err(e) => ts.len() == 2 && r == Err::<u16, I2cError>(e),
                Ok(_) => {
                    &&& ts.len() == 3
                    &&& asked(ts[2], RT5682_I2C_ADDR, be16(REG_PWR_MGMT_1) + be16(0x8000), 0)
                    &&& r == match ts[2].3 {
                        Ok(_) => Ok::<u16, I2cError>(be_word(ts[1].4)),
                        Err(e) => Err(e),
                    }
                },
            }
        },
    }
}

/// The codec on a bus.
pub struct Rt5682 {
    pub bus_id: usize,
}

impl Rt5682 {
    /// The codec on bus `bus_id`.
    pub fn new(bus_id: usize) -> (c: Self)
        ensures
            c.bus_id == bus_id,
    {
        Rt5682 { bus_id }
    }

    fn be_bytes(v: u16) -> (b: Vec<u8>)
        ensures
            b@ == be16(v),
    {
        let mut b: Vec<u8> = Vec::new();
        b.push((v / 256) as u8);
        b.push((v % 256) as u8);
        assert(b@ =~= be16(v));
        b
    }

    /// Reads a 16-bit register: its number written big-endian, two bytes
    /// read back big-endian.
    fn read_reg<M: I2cMaster>(&self, mgr: &mut I2cManager<M>, reg: u16) -> (r: Result<u16, I2cError>)
        ensures
            final(mgr).buses@.len() == old(mgr).buses@.len(),
            self.bus_id >= old(mgr).buses@.len() ==> r == Err::<u16, I2cError>(I2cError::InvalidParameter)
                && final(mgr).buses@ == old(mgr).buses@,
            self.bus_id < old(mgr).buses@.len() ==> ({
                let ts = transfers_since(old(mgr).buses@, final(mgr).buses@, self.bus_id as int);
                &&& only_transfers_on(old(mgr).buses@, final(mgr).buses@, self.bus_id as int)
                &&& ts.len() == 1
                &&& asked(ts[0], RT5682_I2C_ADDR, be16(reg), 2)
                &&& r == match ts[0].3 {
                    Ok(_) => Ok::<u16, I2cError>(be_word(ts[0].4)),
                    Err(e) => Err(e),
                }
            }),
    {
        let mut buf: Vec<u8> = vec![0u8, 0u8];
        let w = Self::be_bytes(reg);
        match mgr.transfer_on(self.bus_id, RT5682_I2C_ADDR, w.as_slice(), &mut buf) {
            Ok(_) => Ok(buf[0] as u16 * 256 + buf[1] as u16),
            Err(e) => Err(e),
        }
    }

    /// Writes a 16-bit register: number then value, both big-endian.
    fn write_reg<M: I2cMaster>(&self, mgr: &mut I2cManager<M>, reg: u16, val: u16) -> (r: Result<(), I2cError>)
        ensures
            final(mgr).buses@.len() == old(mgr).buses@.len(),
            self.bus_id >= old(mgr).buses@.len() ==> r == Err::<(), I2cError>(I2cError::InvalidParameter)
                && final(mgr).buses@ == old(mgr).buses@,
            self.bus_id < old(mgr).buses@.len() ==> ({
                let ts = transfers_since(old(mgr).buses@, final(mgr).buses@, self.bus_id as int);
                &&& only_transfers_on(old(mgr).buses@, final(mgr).buses@, self.bus_id as int)
                &&& ts.len() == 1
                &&& asked(ts[0], RT5682_I2C_ADDR, be16(reg) + be16(val), 0)
                &&& r == match ts[0].3 {
                    Ok(_) => Ok::<(), I2cError>(()),
                    Err(e) => Err(e),
                }
            }),
    {
        let mut combined = Self::be_bytes(reg);
        let v = Self::be_bytes(val);
        combined.push(v[0]);
        combined.push(v[1]);
        assert(combined@ =~= be16(reg) + be16(val));
        let mut none: Vec<u8> = Vec::new();
        match mgr.transfer_on(self.bus_id, RT5682_I2C_ADDR, combined.as_slice(), &mut none) {
            Ok(_) => Ok(()),
            Err(e) => Err(e),
        }
    }

    /// Resets the codec, reads its chip ID, then turns main power on (0x8000
    /// to power management 1); the first failure stops the sequence. The
    /// chip ID read is returned.
    pub fn init<M: I2cMaster>(&self, mgr: &mut I2cManager<M>) -> (r: Result<u16, I2cError>)
        ensures
            final(mgr).buses@.len() == old(mgr).buses@.len(),
            self.bus_id >= old(mgr).buses@.len() ==> r == Err::<u16, I2cError>(I2cError::InvalidParameter)
                && final(mgr).buses@ == old(mgr).buses@,
            self.bus_id < old(mgr).buses@.len() ==> only_transfers_on(old(mgr).buses@, final(mgr).buses@, self.bus_id as int)
                && init_trace(transfers_since(old(mgr).buses@, final(mgr).buses@, self.bus_id as int), r),
    {
        let ghost b0 = mgr.buses@;
        match self.write_reg(mgr, REG_RESET, 0x0000) {
            Ok(()) => {},
            Err(e) => {
                return Err(e);
            },
        }
        let ghost b1 = mgr.buses@;
        let id = match self.read_reg(mgr, REG_CHIP_ID) {
            Ok(id) => id,
            Err(e) => {
                proof {
                    lemma_transfers_chain(b0, b1, mgr.buses@, self.bus_id as int);
                }
                return Err(e);
            },
        };
        let ghost b2 = mgr.buses@;
        proof {
            lemma_transfers_chain(b0, b1, b2, self.bus_id as int);
        }
        let r = match self.write_reg(mgr, REG_PWR_MGMT_1, 0x8000) {
            Ok(()) => Ok(id),
            Err(e) => Err(e),
        };
        proof {
            lemma_transfers_chain(b0, b2, mgr.buses@, self.bus_id as int);
        }
        r
    }
}

} // verus!
