//! The ChromeOS embedded controller, over SMBus.
use vstd::prelude::*;
use crate::i2c::{I2cError, I2cMaster};
use crate::i2c::bus::{
    I2cManager, smbus_read_block, smbus_read_byte, asked, block_read_trace, block_result, byte_reply,
    only_transfers_on, transfers_since,
};

verus! {

/// The EC's I²C address.
pub const EC_I2C_ADDR: u8 = 0x1E;
/// EC command: version string.
pub const EC_CMD_GET_VERSION: u8 = 0x02;
/// EC command: remaining battery capacity.
pub const EC_CMD_BATTERY_REMAINING: u8 = 0x24;

/// The text `String::from_utf8_lossy` makes of some bytes (invalid
/// sequences become U+FFFD).
pub uninterp spec fn utf8_lossy(b: Seq<u8>) -> Seq<char>;

/// Calls `String::from_utf8_lossy` and takes ownership of the result; on
/// valid UTF-8 that is the text the bytes encode.
#[verifier::external_body]
pub(crate) fn lossy_string(b: &[u8]) -> (s: String)
    ensures
        s@ == utf8_lossy(b@),
        vstd::utf8::valid_utf8(b@) ==> s@ == vstd::utf8::decode_utf8(b@),
{
    String::from_utf8_lossy(b).into_owned()
}

/// Index of the first zero byte of `b`, or its length.
pub open spec fn first_zero(b: Seq<u8>) -> int
    decreases b.len(),
{
    if b.len() == 0 {
        0
    } else if b[0] == 0 {
        0
    } else {
        1 + first_zero(b.drop_first())
    }
}

/// The version text in a block the EC returned: up to the first zero byte.
pub fn version_from_block(buf: &Vec<u8>) -> (s: String)
    ensures
        s@ == utf8_lossy(buf@.take(first_zero(buf@))),
{
    let mut len: usize = 0;
    while len < buf.len() && buf[len] != 0
        invariant
            len <= buf@.len(),
            forall|k: int| 0 <= k < len ==> buf@[k] != 0,
        decreases buf@.len() - len,
    {
        len = len + 1;
    }
    proof {
        lemma_first_zero(buf@, len as int);
    }
    let mut prefix: Vec<u8> = Vec::new();
    let mut i: usize = 0;
    while i < len
        invariant
            i <= len <= buf@.len(),
            prefix@ == buf@.take(i as int),
        decreases len - i,
    {
        prefix.push(buf[i]);
        i = i + 1;
        assert(prefix@ =~= buf@.take(i as int));
    }
    lossy_string(prefix.as_slice())
}

proof fn lemma_first_zero(b: Seq<u8>, n: int)
    requires
        0 <= n <= b.len(),
        forall|k: int| 0 <= k < n ==> b[k] != 0,
        n == b.len() || b[n] == 0,
    ensures
        first_zero(b) == n,
    decreases b.len(),
{
    if b.len() > 0 && n > 0 {
        lemma_first_zero(b.drop_first(), n - 1);
    }
}

/// What a version request answers for its block read of 32 bytes: the text
/// of the block up to its first zero byte, or the read's error.
pub open spec fn version_reply(ts: Seq<(u8, Seq<u8>, nat, Result<usize, I2cError>, Seq<u8>)>, r: Result<String, I2cError>) -> bool {
    match block_result(ts, 32) {
        Ok(_) => r is Ok && r->Ok_0@ == utf8_lossy(ts.last().4.take(first_zero(ts.last().4))),
        Err(e) => r is Err && r->Err_0 == e,
    }
}

/// The EC on a bus.
pub struct CrosEc {
    pub bus_id: usize,
}

impl CrosEc {
    /// The EC on bus `bus_id`.
    pub fn new(bus_id: usize) -> (e: Self)
        ensures
            e.bus_id == bus_id,
    {
        CrosEc { bus_id }
    }

    /// The EC's version string: a 32-byte block read with the version
    /// command, up to its first zero byte.
    pub fn get_version<M: I2cMaster>(&self, mgr: &mut I2cManager<M>) -> (r: Result<String, I2cError>)
        ensures
            final(mgr).buses@.len() == old(mgr).buses@.len(),
            self.bus_id >= old(mgr).buses@.len() ==> (r matches Err(e) && e == I2cError::InvalidParameter)
                && final(mgr).buses@ == old(mgr).buses@,
            self.bus_id < old(mgr).buses@.len() ==> ({
                let ts = transfers_since(old(mgr).buses@, final(mgr).buses@, self.bus_id as int);
                &&& only_transfers_on(old(mgr).buses@, final(mgr).buses@, self.bus_id as int)
                &&& block_read_trace(ts, EC_I2C_ADDR, EC_CMD_GET_VERSION, 32)
                &&& version_reply(ts, r)
            }),
    {
        let mut buf: Vec<u8> = vec![0u8; 32];
        match smbus_read_block(mgr, self.bus_id, EC_I2C_ADDR, EC_CMD_GET_VERSION, &mut buf) {
            Ok(_) => Ok(version_from_block(&buf)),
            Err(e) => Err(e),
        }
    }

    /// The battery level in percent, read with the capacity command.
    pub fn get_battery_level<M: I2cMaster>(&self, mgr: &mut I2cManager<M>) -> (r: Result<u8, I2cError>)
        ensures
            final(mgr).buses@.len() == old(mgr).buses@.len(),
            self.bus_id >= old(mgr).buses@.len() ==> r == Err::<u8, I2cError>(I2cError::InvalidParameter)
                && final(mgr).buses@ == old(mgr).buses@,
            self.bus_id < old(mgr).buses@.len() ==> ({
                let ts = transfers_since(old(mgr).buses@, final(mgr).buses@, self.bus_id as int);
                &&& only_transfers_on(old(mgr).buses@, final(mgr).buses@, self.bus_id as int)
                &&& ts.len() == 1
                &&& asked(ts[0], EC_I2C_ADDR, seq![EC_CMD_BATTERY_REMAINING], 1)
                &&& r == byte_reply(ts[0])
            }),
    {
        smbus_read_byte(mgr, self.bus_id, EC_I2C_ADDR, EC_CMD_BATTERY_REMAINING)
    }
}

/// Brings up the EC on bus 0: its version string, or why it did not answer.
pub fn init<M: I2cMaster>(mgr: &mut I2cManager<M>) -> (r: Result<String, I2cError>)
    ensures
        final(mgr).buses@.len() == old(mgr).buses@.len(),
        old(mgr).buses@.len() == 0 ==> (r matches Err(e) && e == I2cError::InvalidParameter)
            && final(mgr).buses@ == old(mgr).buses@,
        old(mgr).buses@.len() > 0 ==> ({
            let ts = transfers_since(old(mgr).buses@, final(mgr).buses@, 0);
            &&& only_transfers_on(old(mgr).buses@, final(mgr).buses@, 0)
            &&& block_read_trace(ts, EC_I2C_ADDR, EC_CMD_GET_VERSION, 32)
            &&& version_reply(ts, r)
        }),
{
    let ec = CrosEc::new(0);
    ec.get_version(mgr)
}

} // verus!
