//! Maxim MAX98390 smart amplifier.
use vstd::prelude::*;
use crate::i2c::{I2cError, I2cMaster};
use crate::i2c::bus::{I2cManager, asked, lemma_transfers_chain, only_transfers_on, transfers_since, unit_reply};

verus! {

/// Address of the left amplifier.
pub const MAXIM_I2C_ADDR_L: u8 = 0x38;
/// Address of the right amplifier.
pub const MAXIM_I2C_ADDR_R: u8 = 0x3C;

/// The bytes of a register write: the 16-bit register big-endian, then the value.
pub open spec fn maxim_write_bytes(reg: u16, val: u8) -> Seq<u8> {
    seq![(reg / 256) as u8, (reg % 256) as u8, val]
}

/// The transfers and answer of an initialisation of the amplifier at
/// `addr`: 0x01 written to 0x2000 (reset), then, only if that succeeded,
/// 0x01 to 0x2001 (enable); the first error, or success.
pub open spec fn init_trace(ts: Seq<(u8, Seq<u8>, nat, Result<usize, I2cError>, Seq<u8>)>, addr: u8, r: Result<(), I2cError>) -> bool {
    &&& ts.len() >= 1
    &&& asked(ts[0], addr, maxim_write_bytes(0x2000, 0x01), 0)
    &&& match ts[0].3 {
        Err(e) => ts.len() == 1 && r == Err::<(), I2cError>(e),
        Ok(_) => ts.len() == 2 && asked(ts[1], addr, maxim_write_bytes(0x2001, 0x01), 0) && r == unit_reply(ts[1]),
    }
}

/// One amplifier: its bus and address.
pub struct Max98390 {
    pub bus_id: usize,
    pub addr: u8,
}

impl Max98390 {
    /// The amplifier at `addr` on bus `bus_id`.
    pub fn new(bus_id: usize, addr: u8) -> (m: Self)
        ensures
            m.bus_id == bus_id,
            m.addr == addr,
    {
        Max98390 { bus_id, addr }
    }

    /// The bytes that write `val` to register `reg`.
    pub fn reg_bytes(reg: u16, val: u8) -> (b: Vec<u8>)
        ensures
            b@ == maxim_write_bytes(reg, val),
    {
        let mut b: Vec<u8> = Vec::new();
        b.push((reg / 256) as u8);
        b.push((reg % 256) as u8);
        b.push(val);
        assert(b@ =~= maxim_write_bytes(reg, val));
        b
    }

    fn write_reg<M: I2cMaster>(&self, mgr: &mut I2cManager<M>, reg: u16, val: u8) -> (r: Result<(), I2cError>)
        ensures
            final(mgr).buses@.len() == old(mgr).buses@.len(),
            self.bus_id >= old(mgr).buses@.len() ==> r == Err::<(), I2cError>(I2cError::InvalidParameter)
                && final(mgr).buses@ == old(mgr).buses@,
            self.bus_id < old(mgr).buses@.len() ==> ({
                let ts = transfers_since(old(mgr).buses@, final(mgr).buses@, self.bus_id as int);
                &&& only_transfers_on(old(mgr).buses@, final(mgr).buses@, self.bus_id as int)
                &&& ts.len() == 1
                &&& asked(ts[0], self.addr, maxim_write_bytes(reg, val), 0)
                &&& r == unit_reply(ts[0])
            }),
    {
        let combined = Self::reg_bytes(reg, val);
        let mut none: Vec<u8> = Vec::new();
        match mgr.transfer_on(self.bus_id, self.addr, combined.as_slice(), &mut none) {
            Ok(_) => Ok(()),
            Err(e) => Err(e),
        }
    }

    /// Resets the amplifier (0x01 to 0x2000), then enables it (0x01 to
    /// 0x2001); the first failure stops the sequence.
    pub fn init<M: I2cMaster>(&self, mgr: &mut I2cManager<M>) -> (r: Result<(), I2cError>)
        ensures
            final(mgr).buses@.len() == old(mgr).buses@.len(),
            self.bus_id >= old(mgr).buses@.len() ==> r == Err::<(), I2cError>(I2cError::InvalidParameter)
                && final(mgr).buses@ == old(mgr).buses@,
            self.bus_id < old(mgr).buses@.len() ==> only_transfers_on(old(mgr).buses@, final(mgr).buses@, self.bus_id as int)
                && init_trace(transfers_since(old(mgr).buses@, final(mgr).buses@, self.bus_id as int), self.addr, r),
    {
        let ghost b0 = mgr.buses@;
        match self.write_reg(mgr, 0x2000, 0x01) {
            Ok(()) => {},
            Err(e) => {
                return Err(e);
            },
        }
        let ghost b1 = mgr.buses@;
        let r = self.write_reg(mgr, 0x2001, 0x01);
        proof {
            lemma_transfers_chain(b0, b1, mgr.buses@, self.bus_id as int);
        }
        r
    }
}

} // verus!
