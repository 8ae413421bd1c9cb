//! A master that answers from a script, for exercising device code.
use vstd::prelude::*;
use crate::i2c::{I2cError, I2cMaster, I2cSpeed};

verus! {

/// Answers transfers with `replies` in order (a result, and the bytes put
/// into the read buffer as far as it reaches), then with DeviceNotReady;
/// keeps what each transfer asked: the address, the bytes written and the
/// read length. No device answers a probe.
pub struct ScriptedMaster {
    pub replies: Vec<(Result<usize, I2cError>, Vec<u8>)>,
    pub asked: Vec<(u8, Vec<u8>, usize)>,
    pub transfer_log: Ghost<Seq<(u8, Seq<u8>, nat, Result<usize, I2cError>, Seq<u8>)>>,
    pub probe_log: Ghost<Seq<(u8, bool)>>,
}

impl ScriptedMaster {
    /// A master that will answer with `replies`.
    pub fn new(replies: Vec<(Result<usize, I2cError>, Vec<u8>)>) -> (m: Self)
        ensures
            m.replies@ == replies@,
            m.asked@.len() == 0,
            m.transfer_log@.len() == 0,
            m.probe_log@.len() == 0,
    {
        ScriptedMaster { replies, asked: Vec::new(), transfer_log: Ghost(Seq::empty()), probe_log: Ghost(Seq::empty()) }
    }
}

/// The bytes of `b` in a new vector.
fn copy_bytes(b: &[u8]) -> (v: Vec<u8>)
    ensures
        v@ == b@,
{
    let mut v: Vec<u8> = Vec::new();
    let mut i: usize = 0;
    while i < b.len()
        invariant
            i <= b@.len(),
            v@ == b@.take(i as int),
        decreases b@.len() - i,
    {
        v.push(b[i]);
        i = i + 1;
        assert(v@ =~= b@.take(i as int));
    }
    assert(b@.take(b@.len() as int) =~= b@);
    v
}

impl I2cMaster for ScriptedMaster {
    open spec fn transfers(&self) -> Seq<(u8, Seq<u8>, nat, Result<usize, I2cError>, Seq<u8>)> {
        self.transfer_log@
    }

    open spec fn probes(&self) -> Seq<(u8, bool)> {
        self.probe_log@
    }

    fn name(&self) -> &'static str {
        "scripted"
    }

    fn transfer(&mut self, addr: u8, write_buf: &[u8], read_buf: &mut Vec<u8>) -> (r: Result<usize, I2cError>) {
        let ghost before = read_buf@;
        let w = copy_bytes(write_buf);
        self.asked.push((addr, w, read_buf.len()));
        let r = if self.replies.len() == 0 {
            Err(I2cError::DeviceNotReady)
        } else {
            let (res, data) = self.replies.remove(0);
            let mut i: usize = 0;
            while i < read_buf.len() && i < data.len()
                invariant
                    read_buf@.len() == before.len(),
                decreases read_buf@.len() - i,
            {
                read_buf.set(i, data[i]);
                i = i + 1;
            }
            res
        };
        proof {
            self.transfer_log@ = self.transfer_log@.push((addr, write_buf@, before.len(), r, read_buf@));
        }
        r
    }

    fn set_speed(&mut self, speed: I2cSpeed) {
    }

    fn probe(&mut self, addr: u8) -> (present: bool) {
        proof {
            self.probe_log@ = self.probe_log@.push((addr, false));
        }
        false
    }
}

} // verus!
