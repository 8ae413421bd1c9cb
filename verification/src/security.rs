//! The self-test module: a cycle counter that, while active, calls for a
//! stream-cipher integrity check every fifth cycle.
use vstd::prelude::*;
use chacha20::cipher::{KeyIvInit, StreamCipher};
use chacha20::ChaCha20;
use crate::entropy::{entropy_byte, fill_entropy};

verus! {

/// The first `len` bytes of the ChaCha20 keystream (96-bit nonce, block
/// counter from zero) of a key and nonce.
pub uninterp spec fn chacha20_keystream(key: Seq<u8>, nonce: Seq<u8>, len: nat) -> Seq<u8>;

/// `ChaCha20::new(key, nonce)` then `apply_keystream` on eight bytes, of the
/// chacha20 crate. Claimed: each byte is XORed with the named keystream.
#[verifier::external_body]
fn chacha20_apply(key: [u8; 32], nonce: [u8; 12], data: [u8; 8]) -> (out: [u8; 8])
    ensures
        forall|i: int| 0 <= i < 8 ==> #[trigger] out@[i] == data@[i] ^ chacha20_keystream(key@, nonce@, 8)[i],
{
    let mut buffer = data;
    let mut cipher = ChaCha20::new(chacha20::Key::from_slice(&key), chacha20::Nonce::from_slice(&nonce));
    cipher.apply_keystream(&mut buffer);
    buffer
}

/// The self-test state: cycles run so far and whether it is switched on.
pub struct SecurityModule {
    fuzz_counter: usize,
    pub is_active: bool,
}

impl Default for SecurityModule {
    fn default() -> (m: Self)
        ensures
            m.spec_cycles() == 0,
            !m.spec_active(),
    {
        SecurityModule { fuzz_counter: 0, is_active: false }
    }
}

/// The cycle count after `c` (wrapping, as an atomic counter does).
pub open spec fn next_cycle(c: usize) -> usize {
    if c == usize::MAX { 0 } else { (c + 1) as usize }
}

/// The bytes of a fixed-size buffer filled from entropy words.
pub open spec fn entropy_bytes(words: Seq<u64>, len: nat) -> Seq<u8> {
    Seq::new(len, |i: int| entropy_byte(words, i))
}

impl SecurityModule {
    pub closed spec fn spec_cycles(&self) -> usize {
        self.fuzz_counter
    }

    pub closed spec fn spec_active(&self) -> bool {
        self.is_active
    }

    /// An inactive module with no cycles run.
    pub fn new() -> (m: Self)
        ensures
            m.spec_cycles() == 0,
            !m.spec_active(),
    {
        Self::default()
    }

    /// Switches the module on or off.
    pub fn set_active(&mut self, active: bool)
        ensures
            final(self).spec_active() == active,
            final(self).spec_cycles() == old(self).spec_cycles(),
    {
        self.is_active = active;
    }

    /// Runs one cycle: while inactive nothing happens; while active the cycle
    /// is counted, and its number is returned when it calls for an integrity
    /// check (every fifth cycle, from the first).
    pub fn run_fuzzing_cycle(&mut self) -> (check_due: Option<usize>)
        ensures
            final(self).spec_active() == old(self).spec_active(),
            !old(self).spec_active() ==> check_due is None && final(self).spec_cycles() == old(self).spec_cycles(),
            old(self).spec_active() ==> {
                &&& final(self).spec_cycles() == next_cycle(old(self).spec_cycles())
                &&& check_due == (if old(self).spec_cycles() % 5 == 0 {
                    Some(old(self).spec_cycles())
                } else {
                    None
                })
            },
    {
        if !self.is_active {
            return None;
        }
        let cycle = self.fuzz_counter;
        self.fuzz_counter = cycle.wrapping_add(1);
        if cycle % 5 == 0 {
            Some(cycle)
        } else {
            None
        }
    }

    /// The integrity check: a key from four entropy words and a nonce from
    /// two more, and the eight sampled bytes run through the ChaCha20
    /// keystream of that key and nonce.
    pub fn perform_integrity_check(&self, key_words: &Vec<u64>, nonce_words: &Vec<u64>, sample: [u8; 8]) -> (out: [u8; 8])
        requires
            key_words@.len() >= 4,
            nonce_words@.len() >= 2,
        ensures
            forall|i: int|
                0 <= i < 8 ==> #[trigger] out@[i] == sample@[i] ^ chacha20_keystream(
                    entropy_bytes(key_words@, 32),
                    entropy_bytes(nonce_words@, 12),
                    8,
                )[i],
    {
        let mut key_bytes: Vec<u8> = vec![0u8; 32];
        fill_entropy(&mut key_bytes, key_words);
        let mut nonce_bytes: Vec<u8> = vec![0u8; 12];
        fill_entropy(&mut nonce_bytes, nonce_words);
        let mut key = [0u8; 32];
        let mut i: usize = 0;
        while i < 32
            invariant
                i <= 32,
                key@.len() == 32,
                key_bytes@.len() == 32,
                forall|k: int| 0 <= k < 32 ==> #[trigger] key_bytes@[k] == entropy_byte(key_words@, k),
                forall|k: int| 0 <= k < i ==> key@[k] == key_bytes@[k],
            decreases 32 - i,
        {
            key[i] = key_bytes[i];
            i = i + 1;
        }
        let mut nonce = [0u8; 12];
        let mut j: usize = 0;
        while j < 12
            invariant
                j <= 12,
                nonce@.len() == 12,
                nonce_bytes@.len() == 12,
                forall|k: int| 0 <= k < 12 ==> #[trigger] nonce_bytes@[k] == entropy_byte(nonce_words@, k),
                forall|k: int| 0 <= k < j ==> nonce@[k] == nonce_bytes@[k],
            decreases 12 - j,
        {
            nonce[j] = nonce_bytes[j];
            j = j + 1;
        }
        assert(key@ =~= entropy_bytes(key_words@, 32));
        assert(nonce@ =~= entropy_bytes(nonce_words@, 12));
        chacha20_apply(key, nonce, sample)
    }
}

/// An active module counts its first cycle.
pub fn test_security_module() -> (passed: bool)
    ensures
        passed,
{
    let mut sec = SecurityModule::new();
    sec.set_active(true);
    let _ = sec.run_fuzzing_cycle();
    sec.fuzz_counter == 1
}

} // verus!
