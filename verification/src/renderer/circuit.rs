//! The procedural circuit-board texture: eight random walks of traces in
//! 8-pixel steps, drawn from a seeded ChaCha20 generator.
use vstd::prelude::*;
use rand_chacha::rand_core::{RngCore, SeedableRng};
use crate::gui_3d::trunc_div;
use crate::renderer::Texture;

verus! {

/// The first `n` words a `ChaCha20Rng` seeded with `seed` gives from
/// `next_u32`.
pub uninterp spec fn chacha20_rng_u32s(seed: Seq<u8>, n: nat) -> Seq<u32>;

/// `ChaCha20Rng::from_seed(seed)` of rand_chacha, then `next_u32` `n` times.
/// Claimed: the words are the named stream of the seed, `n` of them.
#[verifier::external_body]
fn rng_words(seed: [u8; 32], n: usize) -> (words: Vec<u32>)
    ensures
        words@ == chacha20_rng_u32s(seed@, n as nat),
        words@.len() == n,
{
    let mut rng = rand_chacha::ChaCha20Rng::from_seed(seed);
    (0..n).map(|_| rng.next_u32()).collect()
}

/// The traces' colour.
pub const TRACE_ARGB: u32 = 0x40FF8844;
/// Walks drawn.
pub const TRACES: usize = 8;
/// Steps of each walk.
pub const STEPS: usize = 30;
/// Generator words each walk takes: its start, then two per step.
pub const WORDS_PER_TRACE: usize = 62;
/// The seed of the texture's generator.
pub const CIRCUIT_SEED_BYTE: u8 = 0x13;

/// `v.max(lo).min(hi)`.
pub open spec fn clamp(v: int, lo: int, hi: int) -> int {
    let m = if v > lo { v } else { lo };
    if m < hi { m } else { hi }
}

/// A step of a walk from a generator word: the word as a signed 32-bit
/// value, its remainder by 3 (truncated), less one, times 8.
pub open spec fn step_delta(r: u32) -> int {
    let a = (r as i32) as int;
    let m = if a >= 0 { a % 3 } else { -((-a) % 3) };
    (m - 1) * 8
}

/// Where walk `t` starts: word 0 modulo the width (at least 10), word 1
/// modulo the height (at least 10).
pub open spec fn walk_start(w: int, h: int, words: Seq<u32>, t: int) -> (int, int) {
    let bx = words[WORDS_PER_TRACE * t] as int % w;
    let by = words[WORDS_PER_TRACE * t + 1] as int % h;
    (if bx > 10 { bx } else { 10 }, if by > 10 { by } else { 10 })
}

/// The step deltas of walk `t`'s step `s`.
pub open spec fn walk_delta(words: Seq<u32>, t: int, s: int) -> (int, int) {
    (step_delta(words[WORDS_PER_TRACE * t + 2 + 2 * s]), step_delta(words[WORDS_PER_TRACE * t + 3 + 2 * s]))
}

/// Where walk `t` stands before step `s`: each step moves by its deltas,
/// clamped to the texture.
pub open spec fn walk_pos(w: int, h: int, words: Seq<u32>, t: int, s: int) -> (int, int)
    decreases s,
{
    if s <= 0 {
        walk_start(w, h, words, t)
    } else {
        let (x, y) = walk_pos(w, h, words, t, s - 1);
        let (dx, dy) = walk_delta(words, t, s - 1);
        (clamp(x + dx, 0, w - 1), clamp(y + dy, 0, h - 1))
    }
}

/// The pixel index written by walk `t`, step `s`, point `i` (of 8 along the
/// step).
pub open spec fn write_index(w: int, h: int, words: Seq<u32>, t: int, s: int, i: int) -> int {
    let (x, y) = walk_pos(w, h, words, t, s);
    let (dx, dy) = walk_delta(words, t, s);
    clamp(y + trunc_div(dy * i, 8), 0, h - 1) * w + clamp(x + trunc_div(dx * i, 8), 0, w - 1)
}

/// Write number `k` (walks, then steps, then points) lands on pixel `p`.
pub open spec fn write_hits(w: int, h: int, words: Seq<u32>, k: int, p: int) -> bool {
    write_index(w, h, words, k / 240, (k % 240) / 8, k % 8) == p
}

/// Some write before number `k` lands on pixel `p`.
pub open spec fn hit_before(w: int, h: int, words: Seq<u32>, k: int, p: int) -> bool {
    exists|j: int| 0 <= j < k && #[trigger] write_hits(w, h, words, j, p)
}

/// The circuit pattern of a `w`×`h` texture from the generator words: the
/// trace colour where a walk passed, zero elsewhere.
pub open spec fn circuit_pixel(w: int, h: int, words: Seq<u32>, p: int) -> u32 {
    if hit_before(w, h, words, (TRACES * STEPS * 8) as int, p) { TRACE_ARGB } else { 0 }
}

fn clamp_i32(v: i32, hi: i32) -> (r: i32)
    requires
        hi >= 0,
    ensures
        r == clamp(v as int, 0, hi as int),
{
    let m = if v > 0 { v } else { 0 };
    if m < hi { m } else { hi }
}

fn step_delta_exec(r: u32) -> (d: i32)
    ensures
        d == step_delta(r),
        -24 <= d <= 8,
{
    ((r as i32) % 3 - 1) * 8
}

/// Draws the eight walks of the circuit texture from generator words.
pub fn circuit_pattern(w: usize, h: usize, words: &Vec<u32>) -> (data: Vec<u32>)
    requires
        1 <= w <= 0x7FFF_0000,
        1 <= h <= 0x7FFF_0000,
        w * h <= usize::MAX,
        words@.len() >= TRACES * WORDS_PER_TRACE,
    ensures
        data@.len() == w * h,
        forall|p: int| 0 <= p < w * h ==> #[trigger] data@[p] == circuit_pixel(w as int, h as int, words@, p),
{
    let ghost ws = words@;
    let ghost (wi, hi) = (w as int, h as int);
    let mut data: Vec<u32> = vec![0u32; w * h];
    let mut t: usize = 0;
    while t < TRACES
        invariant
            1 <= w <= 0x7FFF_0000,
            1 <= h <= 0x7FFF_0000,
            w * h <= usize::MAX,
            ws == words@,
            wi == w,
            hi == h,
            words@.len() >= TRACES * WORDS_PER_TRACE,
            t <= TRACES,
            data@.len() == w * h,
            forall|p: int| 0 <= p < w * h ==> #[trigger] data@[p] == (if hit_before(wi, hi, ws, 240 * t, p) { TRACE_ARGB } else { 0 }),
        decreases TRACES - t,
    {
        let bx = (words[WORDS_PER_TRACE * t] as usize) % w;
        let by = (words[WORDS_PER_TRACE * t + 1] as usize) % h;
        let mut x: usize = if bx > 10 { bx } else { 10 };
        let mut y: usize = if by > 10 { by } else { 10 };
        let mut s: usize = 0;
        while s < STEPS
            invariant
                1 <= w <= 0x7FFF_0000,
                1 <= h <= 0x7FFF_0000,
                w * h <= usize::MAX,
                ws == words@,
                wi == w,
                hi == h,
                words@.len() >= TRACES * WORDS_PER_TRACE,
                t < TRACES,
                s <= STEPS,
                (x as int, y as int) == walk_pos(wi, hi, ws, t as int, s as int),
                x <= 0x7FFF_0000,
                y <= 0x7FFF_0000,
                data@.len() == w * h,
                forall|p: int| 0 <= p < w * h ==> #[trigger] data@[p] == (if hit_before(wi, hi, ws, 240 * t + 8 * s, p) { TRACE_ARGB } else { 0 }),
            decreases STEPS - s,
        {
            let dx = step_delta_exec(words[WORDS_PER_TRACE * t + 2 + 2 * s]);
            let dy = step_delta_exec(words[WORDS_PER_TRACE * t + 3 + 2 * s]);
            let mut i: i32 = 0;
            while i < 8
                invariant
                    1 <= w <= 0x7FFF_0000,
                    1 <= h <= 0x7FFF_0000,
                    w * h <= usize::MAX,
                    ws == words@,
                    wi == w,
                    hi == h,
                    words@.len() >= TRACES * WORDS_PER_TRACE,
                    t < TRACES,
                    s < STEPS,
                    0 <= i <= 8,
                    (x as int, y as int) == walk_pos(wi, hi, ws, t as int, s as int),
                    (dx as int, dy as int) == walk_delta(ws, t as int, s as int),
                    -24 <= dx <= 8,
                    -24 <= dy <= 8,
                    x <= 0x7FFF_0000,
                    y <= 0x7FFF_0000,
                    data@.len() == w * h,
                    forall|p: int| 0 <= p < w * h ==> #[trigger] data@[p] == (if hit_before(wi, hi, ws, 240 * t + 8 * s + i, p) { TRACE_ARGB } else { 0 }),
                decreases 8 - i,
            {
                assert(-192 <= dx * i <= 64 && -192 <= dy * i <= 64) by (nonlinear_arith)
                    requires
                        -24 <= dx <= 8,
                        -24 <= dy <= 8,
                        0 <= i < 8,
                ;
                let px = clamp_i32(x as i32 + dx * i / 8, w as i32 - 1) as usize;
                let py = clamp_i32(y as i32 + dy * i / 8, h as i32 - 1) as usize;
                let ghost k = 240 * t + 8 * s + i;
                assert(k / 240 == t && (k % 240) / 8 == s && k % 8 == i) by (nonlinear_arith)
                    requires
                        k == 240 * t + 8 * s + i,
                        0 <= i < 8,
                        s < 30,
                ;
                assert(py * w + px < w * h) by (nonlinear_arith)
                    requires
                        px < w,
                        py < h,
                ;
                let idx = py * w + px;
                assert(idx == write_index(wi, hi, ws, t as int, s as int, i as int));
                assert(write_hits(wi, hi, ws, k, idx as int));
                let ghost before = data@;
                data.set(idx, TRACE_ARGB);
                proof {
                    assert forall|p: int| 0 <= p < w * h implies #[trigger] data@[p] == (if hit_before(wi, hi, ws, k + 1, p) { TRACE_ARGB } else { 0 }) by {
                        if p == idx {
                            assert(write_hits(wi, hi, ws, k, p));
                        } else {
                            assert(data@[p] == before[p]);
                            if hit_before(wi, hi, ws, k + 1, p) {
                                let j = choose|j: int| 0 <= j < k + 1 && #[trigger] write_hits(wi, hi, ws, j, p);
                                assert(j != k);
                                assert(hit_before(wi, hi, ws, k, p));
                            }
                        }
                    }
                }
                i = i + 1;
            }
            x = clamp_i32(x as i32 + dx, w as i32 - 1) as usize;
            y = clamp_i32(y as i32 + dy, h as i32 - 1) as usize;
            s = s + 1;
        }
        t = t + 1;
    }
    data
}

/// The circuit-board texture of a `w`×`h` map, from the generator seeded
/// with 32 bytes of 0x13.
pub fn generate_circuit(w: usize, h: usize) -> (tex: Texture)
    requires
        1 <= w <= 0x7FFF_0000,
        1 <= h <= 0x7FFF_0000,
        w * h <= usize::MAX,
    ensures
        tex.width == w,
        tex.height == h,
        tex.data@.len() == w * h,
        forall|p: int| 0 <= p < w * h ==> #[trigger] tex.data@[p] == circuit_pixel(
            w as int,
            h as int,
            chacha20_rng_u32s(Seq::new(32, |i: int| CIRCUIT_SEED_BYTE), (TRACES * WORDS_PER_TRACE) as nat),
            p,
        ),
{
    let seed = [CIRCUIT_SEED_BYTE; 32];
    assert(seed@ =~= Seq::new(32, |i: int| CIRCUIT_SEED_BYTE));
    let words = rng_words(seed, TRACES * WORDS_PER_TRACE);
    let data = circuit_pattern(w, h, &words);
    Texture { width: w, height: h, data }
}

} // verus!
