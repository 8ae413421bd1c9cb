//! Entropy words and filling buffers with them.
use vstd::prelude::*;

verus! {

/// Byte `i` of a buffer filled from `words`: byte `i % 8` (little-endian) of
/// word `i / 8`.
pub open spec fn entropy_byte(words: Seq<u64>, i: int) -> u8 {
    ((words[i / 8] as int / vstd::arithmetic::power::pow(256, (i % 8) as nat)) % 256) as u8
}

/// Words needed to fill `len` bytes.
pub open spec fn words_needed(len: int) -> int {
    (len + 7) / 8
}

/// Fills `dest` in 8-byte chunks, each from the next entropy word (from the
/// hardware generator), little-endian; a short last chunk takes the low bytes.
pub fn fill_entropy(dest: &mut Vec<u8>, words: &Vec<u64>)
    requires
        words@.len() >= words_needed(old(dest)@.len() as int),
    ensures
        final(dest)@.len() == old(dest)@.len(),
        forall|i: int| 0 <= i < final(dest)@.len() ==> #[trigger] final(dest)@[i] == entropy_byte(words@, i),
{
    let n = dest.len();
    let mut i: usize = 0;
    while i < n
        invariant
            i <= n,
            n == dest@.len(),
            words@.len() >= words_needed(n as int),
            forall|k: int| 0 <= k < i ==> #[trigger] dest@[k] == entropy_byte(words@, k),
        decreases n - i,
    {
        let w = words[i / 8];
        let mut v: u64 = w;
        let mut j: usize = 0;
        let shift = i % 8;
        proof {
            vstd::arithmetic::power::lemma_pow0(256);
        }
        while j < shift
            invariant
                j <= shift,
                shift < 8,
                v as int == w as int / vstd::arithmetic::power::pow(256, j as nat),
            decreases shift - j,
        {
            proof {
                vstd::arithmetic::power::lemma_pow_adds(256, j as nat, 1);
                vstd::arithmetic::power::lemma_pow1(256);
                vstd::arithmetic::power::lemma_pow_positive(256, j as nat);
                vstd::arithmetic::div_mod::lemma_div_denominator(w as int, vstd::arithmetic::power::pow(256, j as nat), 256);
            }
            v = v / 256;
            j = j + 1;
        }
        dest.set(i, (v % 256) as u8);
        i = i + 1;
    }
}

/// The MurmurHash3 64-bit finaliser: xor-shift by 33, multiply, xor-shift,
/// multiply, xor-shift (products modulo 2^64).
pub open spec fn fmix64(x: u64) -> u64 {
    let a = x ^ (x >> 33);
    let b = vstd::wrapping::u64_specs::wrapping_mul(a, 0xff51afd7ed558ccd);
    let c = b ^ (b >> 33);
    let d = vstd::wrapping::u64_specs::wrapping_mul(c, 0xc4ceb9fe1a85ec53);
    d ^ (d >> 33)
}

/// An entropy word: the hardware generator's value when it gave one;
/// otherwise the time-stamp counter mixed with a stack address.
pub fn get_entropy_64(rdrand: Option<u64>, tsc: u64, stack_addr: u64) -> (w: u64)
    ensures
        rdrand matches Some(v) ==> w == v,
        rdrand is None ==> w == fmix64(tsc ^ stack_addr),
{
    match rdrand {
        Some(v) => v,
        None => {
            let mut mix = tsc ^ stack_addr;
            mix = mix ^ (mix >> 33);
            mix = mix.wrapping_mul(0xff51afd7ed558ccd);
            mix = mix ^ (mix >> 33);
            mix = mix.wrapping_mul(0xc4ceb9fe1a85ec53);
            mix = mix ^ (mix >> 33);
            mix
        },
    }
}

} // verus!
