use vstd::prelude::*;

verus! {

/// An RGB colour.
#[derive(Debug, Clone, Copy, PartialEq, Eq, Structural)]
pub struct Color {
    pub r: u8,
    pub g: u8,
    pub b: u8,
}

/// An axis-aligned rectangle in pixels.
#[derive(Debug, Clone, Copy, PartialEq, Eq, Structural)]
pub struct Rect {
    pub x: usize,
    pub y: usize,
    pub width: usize,
    pub height: usize,
}

/// A display mode.
#[derive(Debug, Clone, Copy, PartialEq, Eq, Structural)]
pub struct GpuMode {
    pub width: usize,
    pub height: usize,
    pub bpp: u8,
    pub pitch: usize,
    pub framebuffer_addr: u64,
    pub framebuffer_size: usize,
    pub double_buffered: bool,
}

/// The boot-time mode: 1280x720 at 32 bits per pixel, no framebuffer yet.
pub open spec fn boot_mode() -> GpuMode {
    GpuMode {
        width: 1280,
        height: 720,
        bpp: 32,
        pitch: 5120,
        framebuffer_addr: 0,
        framebuffer_size: 3686400,
        double_buffered: false,
    }
}

impl GpuMode {
    /// The boot-time mode: 1280x720 at 32 bits per pixel.
    pub fn default() -> (m: Self)
        ensures
            m == boot_mode(),
            m.width == 1280,
            m.height == 720,
            m.bpp == 32,
            m.pitch == 1280 * 4,
            m.framebuffer_addr == 0,
            m.framebuffer_size == 1280 * 720 * 4,
            !m.double_buffered,
    {
        GpuMode {
            width: 1280,
            height: 720,
            bpp: 32,
            pitch: 1280 * 4,
            framebuffer_addr: 0,
            framebuffer_size: 1280 * 720 * 4,
            double_buffered: false,
        }
    }
}

/// Byte offset of pixel (x, y) in a buffer laid out with `pitch` bytes per row
/// and `bpp` bytes per pixel.
pub open spec fn pixel_offset(pitch: int, bpp: int, x: int, y: int) -> int {
    y * pitch + x * bpp
}

/// Every pixel offset of the mode, plus a 4-byte pixel, fits in a `usize`.
pub open spec fn offsets_fit(mode: GpuMode, bpp: int) -> bool {
    mode.height * mode.pitch + mode.width * bpp + 4 <= usize::MAX
}

/// The buffer after writing `c` at (x, y) in blue-green-red order; with `alpha`
/// a zero fourth byte is written too when pixels are 4 bytes wide. Pixels
/// outside the mode, or whose bytes do not all lie in the buffer, are skipped.
pub open spec fn put_pixel_spec(
    buf: Seq<u8>,
    mode: GpuMode,
    bpp: int,
    alpha: bool,
    x: int,
    y: int,
    c: Color,
) -> Seq<u8> {
    let off = pixel_offset(mode.pitch as int, bpp, x, y);
    if 0 <= x < mode.width && 0 <= y < mode.height && off + 3 < buf.len() {
        let b = buf.update(off, c.b).update(off + 1, c.g).update(off + 2, c.r);
        if alpha && bpp == 4 {
            b.update(off + 3, 0)
        } else {
            b
        }
    } else {
        buf
    }
}

/// Painting pixels x0 .. x0 + n of row y, left to right.
pub open spec fn paint_row(
    buf: Seq<u8>,
    mode: GpuMode,
    bpp: int,
    alpha: bool,
    x0: int,
    n: nat,
    y: int,
    c: Color,
) -> Seq<u8>
    decreases n,
{
    if n == 0 {
        buf
    } else {
        put_pixel_spec(
            paint_row(buf, mode, bpp, alpha, x0, (n - 1) as nat, y, c),
            mode,
            bpp,
            alpha,
            x0 + n - 1,
            y,
            c,
        )
    }
}

/// Painting rows y0 .. y0 + h, top to bottom, each from x0 over w pixels.
pub open spec fn paint_rect(
    buf: Seq<u8>,
    mode: GpuMode,
    bpp: int,
    alpha: bool,
    x0: int,
    w: nat,
    y0: int,
    h: nat,
    c: Color,
) -> Seq<u8>
    decreases h,
{
    if h == 0 {
        buf
    } else {
        paint_row(
            paint_rect(buf, mode, bpp, alpha, x0, w, y0, (h - 1) as nat, c),
            mode,
            bpp,
            alpha,
            x0,
            w,
            y0 + h - 1,
            c,
        )
    }
}

proof fn lemma_offset_fits(mode: GpuMode, bpp: int, x: int, y: int)
    requires
        offsets_fit(mode, bpp),
        0 <= bpp,
        0 <= x < mode.width,
        0 <= y < mode.height,
    ensures
        0 <= pixel_offset(mode.pitch as int, bpp, x, y),
        pixel_offset(mode.pitch as int, bpp, x, y) + 4 <= usize::MAX,
{
    let p = mode.pitch as int;
    let h = mode.height as int;
    let w = mode.width as int;
    assert(0 <= y * p <= h * p) by (nonlinear_arith)
        requires 0 <= y < h, 0 <= p;
    assert(0 <= x * bpp <= w * bpp) by (nonlinear_arith)
        requires 0 <= x < w, 0 <= bpp;
}

/// Writes one pixel into a byte buffer (blue, green, red, then a zero alpha
/// byte when `alpha` is set and pixels are 4 bytes wide).
pub fn put_pixel_bytes(buf: &mut Vec<u8>, mode: &GpuMode, bpp: usize, alpha: bool, x: usize, y: usize, color: Color)
    requires
        offsets_fit(*mode, bpp as int),
    ensures
        final(buf)@ == put_pixel_spec(old(buf)@, *mode, bpp as int, alpha, x as int, y as int, color),
{
    if x >= mode.width || y >= mode.height {
        return;
    }
    proof {
        lemma_offset_fits(*mode, bpp as int, x as int, y as int);
    }
    let off = y * mode.pitch + x * bpp;
    if off + 3 < buf.len() {
        buf.set(off, color.b);
        buf.set(off + 1, color.g);
        buf.set(off + 2, color.r);
        if alpha && bpp == 4 {
            buf.set(off + 3, 0);
        }
    }
}

/// Paints every pixel of `rect`, row by row.
pub fn fill_rect_bytes(buf: &mut Vec<u8>, mode: &GpuMode, bpp: usize, alpha: bool, rect: Rect, color: Color)
    requires
        offsets_fit(*mode, bpp as int),
        rect.x + rect.width <= usize::MAX,
        rect.y + rect.height <= usize::MAX,
    ensures
        final(buf)@ == paint_rect(
            old(buf)@,
            *mode,
            bpp as int,
            alpha,
            rect.x as int,
            rect.width as nat,
            rect.y as int,
            rect.height as nat,
            color,
        ),
{
    let ghost start = buf@;
    let mut y = rect.y;
    while y < rect.y + rect.height
        invariant
            offsets_fit(*mode, bpp as int),
            rect.x + rect.width <= usize::MAX,
            rect.y + rect.height <= usize::MAX,
            rect.y <= y <= rect.y + rect.height,
            buf@ == paint_rect(
                start,
                *mode,
                bpp as int,
                alpha,
                rect.x as int,
                rect.width as nat,
                rect.y as int,
                (y - rect.y) as nat,
                color,
            ),
        decreases rect.y + rect.height - y,
    {
        let ghost row_start = buf@;
        let mut x = rect.x;
        while x < rect.x + rect.width
            invariant
                offsets_fit(*mode, bpp as int),
                rect.x + rect.width <= usize::MAX,
                rect.x <= x <= rect.x + rect.width,
                buf@ == paint_row(row_start, *mode, bpp as int, alpha, rect.x as int, (x - rect.x) as nat, y as int, color),
            decreases rect.x + rect.width - x,
        {
            put_pixel_bytes(buf, mode, bpp, alpha, x, y, color);
            x = x + 1;
        }
        y = y + 1;
    }
}

/// Paints the whole visible area of `mode`.
pub fn clear_bytes(buf: &mut Vec<u8>, mode: &GpuMode, bpp: usize, alpha: bool, color: Color)
    requires
        offsets_fit(*mode, bpp as int),
    ensures
        final(buf)@ == paint_rect(
            old(buf)@,
            *mode,
            bpp as int,
            alpha,
            0,
            mode.width as nat,
            0,
            mode.height as nat,
            color,
        ),
{
    fill_rect_bytes(buf, mode, bpp, alpha, Rect { x: 0, y: 0, width: mode.width, height: mode.height }, color);
}

/// The buffer after copying the three colour bytes of the pixel at (sx, sy)
/// onto the pixel at (dx, dy), pixels being 4 bytes wide; skipped when either
/// pixel's bytes do not lie in the buffer.
pub open spec fn copy_pixel_spec(buf: Seq<u8>, pitch: int, sx: int, sy: int, dx: int, dy: int) -> Seq<u8> {
    let s = pixel_offset(pitch, 4, sx, sy);
    let d = pixel_offset(pitch, 4, dx, dy);
    if s + 3 < buf.len() && d + 3 < buf.len() {
        let b0 = buf.update(d, buf[s]);
        let b1 = b0.update(d + 1, b0[s + 1]);
        b1.update(d + 2, b1[s + 2])
    } else {
        buf
    }
}

/// Copying pixels 0 .. n of row y of a w-by-h block.
pub open spec fn blit_row(buf: Seq<u8>, pitch: int, sx: int, sy: int, dx: int, dy: int, n: nat, y: int) -> Seq<u8>
    decreases n,
{
    if n == 0 {
        buf
    } else {
        let prev = blit_row(buf, pitch, sx, sy, dx, dy, (n - 1) as nat, y);
        copy_pixel_spec(prev, pitch, sx + n - 1, sy + y, dx + n - 1, dy + y)
    }
}

/// Copying rows 0 .. h of a w-wide block from (sx, sy) to (dx, dy).
pub open spec fn blit_spec(buf: Seq<u8>, pitch: int, sx: int, sy: int, dx: int, dy: int, w: nat, h: nat) -> Seq<u8>
    decreases h,
{
    if h == 0 {
        buf
    } else {
        blit_row(blit_spec(buf, pitch, sx, sy, dx, dy, w, (h - 1) as nat), pitch, sx, sy, dx, dy, w, h - 1)
    }
}

/// Every offset the block copy computes fits in a `usize`.
pub open spec fn blit_fits(pitch: int, sx: int, sy: int, dx: int, dy: int, w: int, h: int) -> bool {
    &&& sx + w <= usize::MAX
    &&& sy + h <= usize::MAX
    &&& dx + w <= usize::MAX
    &&& dy + h <= usize::MAX
    &&& (sy + h) * pitch + (sx + w) * 4 + 4 <= usize::MAX
    &&& (dy + h) * pitch + (dx + w) * 4 + 4 <= usize::MAX
}

proof fn lemma_blit_offset(pitch: int, a: int, b: int, y: int, x: int, h: int, w: int)
    requires
        0 <= pitch,
        0 <= a,
        0 <= b,
        0 <= y < h,
        0 <= x < w,
        (b + h) * pitch + (a + w) * 4 + 4 <= usize::MAX,
    ensures
        0 <= (b + y) * pitch + (a + x) * 4,
        (b + y) * pitch + (a + x) * 4 + 4 <= usize::MAX,
{
    assert(0 <= (b + y) * pitch <= (b + h) * pitch) by (nonlinear_arith)
        requires 0 <= b + y <= b + h, 0 <= pitch;
}

/// Copies a w-by-h block of 4-byte pixels from (sx, sy) to (dx, dy) within the buffer.
pub fn blit_bytes(buf: &mut Vec<u8>, pitch: usize, sx: usize, sy: usize, dx: usize, dy: usize, w: usize, h: usize)
    requires
        blit_fits(pitch as int, sx as int, sy as int, dx as int, dy as int, w as int, h as int),
    ensures
        final(buf)@ == blit_spec(old(buf)@, pitch as int, sx as int, sy as int, dx as int, dy as int, w as nat, h as nat),
{
    let ghost start = buf@;
    let mut y: usize = 0;
    while y < h
        invariant
            blit_fits(pitch as int, sx as int, sy as int, dx as int, dy as int, w as int, h as int),
            y <= h,
            buf@ == blit_spec(start, pitch as int, sx as int, sy as int, dx as int, dy as int, w as nat, y as nat),
        decreases h - y,
    {
        let ghost row_start = buf@;
        let mut x: usize = 0;
        while x < w
            invariant
                blit_fits(pitch as int, sx as int, sy as int, dx as int, dy as int, w as int, h as int),
                y < h,
                x <= w,
                buf@ == blit_row(row_start, pitch as int, sx as int, sy as int, dx as int, dy as int, x as nat, y as int),
            decreases w - x,
        {
            proof {
                lemma_blit_offset(pitch as int, sx as int, sy as int, y as int, x as int, h as int, w as int);
                lemma_blit_offset(pitch as int, dx as int, dy as int, y as int, x as int, h as int, w as int);
            }
            let soff = (sy + y) * pitch + (sx + x) * 4;
            let doff = (dy + y) * pitch + (dx + x) * 4;
            if soff + 3 < buf.len() && doff + 3 < buf.len() {
                let v0 = buf[soff];
                buf.set(doff, v0);
                let v1 = buf[soff + 1];
                buf.set(doff + 1, v1);
                let v2 = buf[soff + 2];
                buf.set(doff + 2, v2);
            }
            x = x + 1;
        }
        y = y + 1;
    }
}

} // verus!
