//! Post-processing buffers: the bloom pass's scratch image.
use vstd::prelude::*;

verus! {

/// The bloom pass: a scratch image the size of the frame.
pub struct BloomPass {
    pub scratch: Vec<u32>,
    pub width: usize,
    pub height: usize,
}

impl BloomPass {
    /// A pass for `width`×`height` frames with a cleared scratch image.
    pub fn new(width: usize, height: usize) -> (b: Self)
        requires
            width * height <= usize::MAX,
        ensures
            b.width == width,
            b.height == height,
            b.scratch@ == Seq::new((width * height) as nat, |i: int| 0u32),
    {
        let scratch: Vec<u32> = vec![0u32; width * height];
        assert(scratch@ =~= Seq::new((width * height) as nat, |i: int| 0u32));
        BloomPass { scratch, width, height }
    }
}

} // verus!
