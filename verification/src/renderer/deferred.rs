//! The deferred pipeline's buffers: the G-buffer (four packed words per
//! pixel: albedo, normal, depth, emissive) and the ARGB output, and the blit
//! of the output to a BGRA framebuffer.
use vstd::prelude::*;

verus! {

/// Words per G-buffer pixel.
pub const GBUF_COUNT: usize = 4;
/// The output's clear colour.
pub const CLEAR_ARGB: u32 = 0xFF08080E;

/// The G-buffer and the output image of a `width`×`height` frame.
pub struct DeferredPipeline {
    pub width: usize,
    pub height: usize,
    pub gbuffer: Vec<[u32; 4]>,
    pub output: Vec<u32>,
}

/// Blue, green and red bytes of an ARGB word.
pub open spec fn bgr(argb: u32) -> (u8, u8, u8) {
    ((argb & 0xFF) as u8, ((argb >> 8) & 0xFF) as u8, ((argb >> 16) & 0xFF) as u8)
}

impl DeferredPipeline {
    /// A cleared G-buffer and an output filled with the clear colour.
    pub fn new(width: usize, height: usize) -> (p: Self)
        requires
            width * height <= usize::MAX,
        ensures
            p.width == width,
            p.height == height,
            p.gbuffer@.len() == width * height,
            forall|i: int| 0 <= i < width * height ==> (#[trigger] p.gbuffer@[i])@ == seq![0u32, 0u32, 0u32, 0u32],
            p.output@ == Seq::new((width * height) as nat, |i: int| CLEAR_ARGB),
    {
        let pixels = width * height;
        let gbuffer: Vec<[u32; 4]> = vec![[0u32; 4]; pixels];
        let output: Vec<u32> = vec![CLEAR_ARGB; pixels];
        assert(output@ =~= Seq::new(pixels as nat, |i: int| CLEAR_ARGB));
        assert forall|i: int| 0 <= i < pixels implies (#[trigger] gbuffer@[i])@ == seq![0u32, 0u32, 0u32, 0u32] by {
            assert(gbuffer@[i]@ =~= seq![0u32, 0u32, 0u32, 0u32]);
        }
        DeferredPipeline { width, height, gbuffer, output }
    }

    /// Clears the G-buffer of the frame's pixels for a new frame.
    pub fn clear(&mut self)
        requires
            old(self).width * old(self).height <= old(self).gbuffer.len(),
        ensures
            final(self).width == old(self).width,
            final(self).height == old(self).height,
            final(self).output@ == old(self).output@,
            final(self).gbuffer@.len() == old(self).gbuffer@.len(),
            forall|i: int| 0 <= i < old(self).width * old(self).height ==> (#[trigger] final(self).gbuffer@[i])@ == seq![0u32, 0u32, 0u32, 0u32],
            forall|i: int| old(self).width * old(self).height <= i < old(self).gbuffer@.len() ==> #[trigger] final(self).gbuffer@[i] == old(self).gbuffer@[i],
    {
        let pixels = self.width * self.height;
        let mut i: usize = 0;
        while i < pixels
            invariant
                pixels == self.width * self.height,
                pixels <= self.gbuffer@.len(),
                i <= pixels,
                self.width == old(self).width,
                self.height == old(self).height,
                self.output@ == old(self).output@,
                self.gbuffer@.len() == old(self).gbuffer@.len(),
                forall|k: int| 0 <= k < i ==> (#[trigger] self.gbuffer@[k])@ == seq![0u32, 0u32, 0u32, 0u32],
                forall|k: int| i <= k < self.gbuffer@.len() ==> #[trigger] self.gbuffer@[k] == old(self).gbuffer@[k],
            decreases pixels - i,
        {
            let z = [0u32; 4];
            assert(z@ =~= seq![0u32, 0u32, 0u32, 0u32]);
            self.gbuffer.set(i, z);
            i = i + 1;
        }
    }

    /// The output image.
    pub fn get_output(&self) -> (out: &Vec<u32>)
        ensures
            out@ == self.output@,
    {
        &self.output
    }

    /// Copies the output into a BGRA framebuffer: blue, green and red of each
    /// pixel, for as many pixels as both hold; alpha bytes are left alone.
    pub fn blit_to_framebuffer(&self, dst: &mut Vec<u8>)
        requires
            self.width * self.height <= self.output.len(),
        ensures
            final(dst)@.len() == old(dst)@.len(),
            forall|i: int| 0 <= i < final(dst)@.len() ==> {
                let p = i / 4;
                let c = i % 4;
                #[trigger] final(dst)@[i] == (if p < self.width * self.height && p < old(dst)@.len() / 4 && c < 3 {
                    if c == 0 { bgr(self.output@[p]).0 } else if c == 1 { bgr(self.output@[p]).1 } else { bgr(self.output@[p]).2 }
                } else {
                    old(dst)@[i]
                })
            },
    {
        let pixels = self.width * self.height;
        let dst_pixels = dst.len() / 4;
        let copy_count = if pixels < dst_pixels { pixels } else { dst_pixels };
        let mut i: usize = 0;
        while i < copy_count
            invariant
                copy_count as int == (if pixels < dst@.len() / 4 { pixels as int } else { (dst@.len() / 4) as int }),
                copy_count <= pixels,
                copy_count <= dst@.len() / 4,
                pixels == self.width * self.height,
                pixels <= self.output@.len(),
                i <= copy_count,
                dst@.len() == old(dst)@.len(),
                forall|j: int| 0 <= j < dst@.len() ==> {
                    let p = j / 4;
                    let c = j % 4;
                    #[trigger] dst@[j] == (if p < i && c < 3 {
                        if c == 0 { bgr(self.output@[p]).0 } else if c == 1 { bgr(self.output@[p]).1 } else { bgr(self.output@[p]).2 }
                    } else {
                        old(dst)@[j]
                    })
                },
            decreases copy_count - i,
        {
            let argb = self.output[i];
            let b = (argb & 0xFF) as u8;
            let g = ((argb >> 8) & 0xFF) as u8;
            let r = ((argb >> 16) & 0xFF) as u8;
            let n = dst.len();
            assert(i * 4 + 3 < n) by (nonlinear_arith)
                requires
                    i < copy_count,
                    copy_count <= n / 4,
            ;
            let ghost before = dst@;
            dst.set(i * 4, b);
            dst.set(i * 4 + 1, g);
            dst.set(i * 4 + 2, r);
            proof {
                assert forall|j: int| 0 <= j < dst@.len() implies {
                    let p = j / 4;
                    let c = j % 4;
                    #[trigger] dst@[j] == (if p < i + 1 && c < 3 {
                        if c == 0 { bgr(self.output@[p]).0 } else if c == 1 { bgr(self.output@[p]).1 } else { bgr(self.output@[p]).2 }
                    } else {
                        old(dst)@[j]
                    })
                } by {
                    if j / 4 != i {
                        assert(j != 4 * i && j != 4 * i + 1 && j != 4 * i + 2);
                        assert(dst@[j] == before[j]);
                    }
                }
            }
            i = i + 1;
        }
    }
}

} // verus!
