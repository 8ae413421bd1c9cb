use vstd::prelude::*;

verus! {

/// Sum of the squares of the samples, as a mathematical integer.
pub open spec fn energy(samples: Seq<i16>) -> int
    decreases samples.len(),
{
    if samples.len() == 0 {
        0
    } else {
        energy(samples.drop_last()) + samples.last() * samples.last()
    }
}

proof fn lemma_energy_bounds(samples: Seq<i16>)
    ensures
        0 <= energy(samples) <= samples.len() * 0x4000_0000,
    decreases samples.len(),
{
    if samples.len() > 0 {
        lemma_energy_bounds(samples.drop_last());
        let x = samples.last() as int;
        assert(x * x <= 0x4000_0000) by (nonlinear_arith)
            requires -32768 <= x <= 32767;
        assert(0 <= x * x) by (nonlinear_arith);
    }
}

proof fn lemma_energy_prefix(s: Seq<i16>, i: int)
    requires
        0 <= i <= s.len(),
    ensures
        energy(s.subrange(0, i)) <= energy(s),
    decreases s.len() - i,
{
    if i < s.len() {
        lemma_energy_prefix(s, i + 1);
        let t = s.subrange(0, i + 1);
        assert(t.drop_last() =~= s.subrange(0, i));
        let x = t.last() as int;
        assert(0 <= x * x) by (nonlinear_arith);
    } else {
        assert(s.subrange(0, i) =~= s);
    }
}

/// An energy-based voice activity detector.
pub struct Vad {
    pub threshold: u32,
}

impl Vad {
    pub fn new(threshold: u32) -> (v: Self)
        ensures
            v.threshold == threshold,
    {
        Vad { threshold }
    }

    /// Speech is present when the mean square of the samples exceeds the threshold.
    pub fn is_speech(&mut self, samples: &[i16]) -> (r: bool)
        requires
            energy(samples@) <= 0xFFFF_FFFF_FFFF_FFFF,
        ensures
            *final(self) == *old(self),
            r == (samples@.len() > 0
                && energy(samples@) / (samples@.len() as int) > old(self).threshold),
    {
        if samples.len() == 0 {
            return false;
        }
        let mut total: u64 = 0;
        let mut i: usize = 0;
        while i < samples.len()
            invariant
                i <= samples.len(),
                energy(samples@) <= 0xFFFF_FFFF_FFFF_FFFF,
                total == energy(samples@.subrange(0, i as int)),
            decreases samples.len() - i,
        {
            proof {
                lemma_energy_bounds(samples@.subrange(0, i as int));
                assert(samples@.subrange(0, i as int + 1).drop_last() =~= samples@.subrange(0, i as int));
                let x = samples[i as int] as int;
                assert(x * x <= 0x4000_0000) by (nonlinear_arith)
                    requires -32768 <= x <= 32767;
                assert(0 <= x * x) by (nonlinear_arith);
                lemma_energy_prefix(samples@, i as int + 1);
            }
            let s = samples[i] as i32;
            let sq = (s * s) as u64;
            assert(total + sq == energy(samples@.subrange(0, i as int + 1)));
            total = total + sq;
            i = i + 1;
        }
        proof {
            assert(samples@.subrange(0, samples@.len() as int) =~= samples@);
            lemma_energy_bounds(samples@);
            assert(energy(samples@) / (samples@.len() as int) <= 0x4000_0000) by (nonlinear_arith)
                requires
                    0 <= energy(samples@) <= samples@.len() * 0x4000_0000,
                    samples@.len() > 0;
        }
        let avg = (total / (samples.len() as u64)) as u32;
        avg > self.threshold
    }
}

} // verus!
