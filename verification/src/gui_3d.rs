//! Scan-line triangle filling for the hologram view: the spans of pixels a
//! projected triangle covers on the framebuffer.
use vstd::prelude::*;

verus! {

/// A projected vertex on the framebuffer.
#[derive(Debug, Clone, Copy, PartialEq, Eq, Structural)]
pub struct Point2D {
    pub x: isize,
    pub y: isize,
}

/// A run of pixels on row `y` from `x_start` to `x_end` inclusive.
#[derive(Debug, Clone, Copy, PartialEq, Eq, Structural)]
pub struct Span {
    pub y: usize,
    pub x_start: usize,
    pub x_end: usize,
}

/// Division truncated toward zero, as Rust's integer `/` does.
pub open spec fn trunc_div(a: int, b: int) -> int {
    if a >= 0 { a / b } else { -((-a) / b) }
}

/// The x reached after `dy` of `total_dy` rows along the edge from `x0` to
/// `x1`; `x0` for a flat edge.
pub open spec fn interp(x0: int, x1: int, dy: int, total_dy: int) -> int {
    if total_dy == 0 { x0 } else { x0 + trunc_div((x1 - x0) * dy, total_dy) }
}

/// Coordinates whose differences fit a 32-bit `isize` and whose edge
/// products `(x1 - x0) * dy` fit 64 bits.
pub open spec fn coord_ok(v: isize) -> bool {
    -0x3FFF_FFFF <= v <= 0x3FFF_FFFF
}

fn interpolate_x(x0: isize, x1: isize, dy: isize, total_dy: isize) -> (x: isize)
    requires
        coord_ok(x0),
        coord_ok(x1),
        0 <= dy <= total_dy <= 0x7FFF_FFFE,
    ensures
        x == interp(x0 as int, x1 as int, dy as int, total_dy as int),
        x0 <= x1 ==> x0 <= x <= x1,
        x1 < x0 ==> x1 <= x <= x0,
{
    if total_dy == 0 {
        return x0;
    }
    let d = x1 as i64 - x0 as i64;
    assert(-0x4000_0000_0000_0000 <= d * dy <= 0x4000_0000_0000_0000) by (nonlinear_arith)
        requires
            -0x7FFF_FFFE <= d <= 0x7FFF_FFFE,
            0 <= dy <= 0x7FFF_FFFE,
    ;
    let num = d * dy as i64;
    let q = num / total_dy as i64;
    proof {
        let t = total_dy as int;
        let k = dy as int;
        if d >= 0 {
            let e = d as int;
            assert(0 <= e * k && (e * k) / t <= e) by (nonlinear_arith)
                requires
                    e >= 0,
                    0 <= k <= t,
                    t > 0,
            ;
        } else {
            let e = -(d as int);
            assert(0 <= e * k && (e * k) / t <= e) by (nonlinear_arith)
                requires
                    e > 0,
                    0 <= k <= t,
                    t > 0,
            ;
            assert(num as int == -(e * k)) by (nonlinear_arith)
                requires
                    num as int == (d as int) * k,
                    e == -(d as int),
            ;
        }
    }
    (x0 as i64 + q) as isize
}

/// The three vertices ordered by y (a stable sort of three).
pub open spec fn sorted3(v0: Point2D, v1: Point2D, v2: Point2D) -> (Point2D, Point2D, Point2D) {
    let (a, b) = if v0.y > v1.y { (v1, v0) } else { (v0, v1) };
    let (b2, c) = if b.y > v2.y { (v2, b) } else { (b, v2) };
    let (a2, b3) = if a.y > b2.y { (b2, a) } else { (a, b2) };
    (a2, b3, c)
}

/// The span of row `y` between edge positions `x1` and `x2`, clipped to the
/// framebuffer; none when the row is off the framebuffer or nothing is left.
pub open spec fn row_span(y: int, x1: int, x2: int, width: int, height: int) -> Seq<Span> {
    let lo = if x1 < x2 { x1 } else { x2 };
    let hi = if x1 < x2 { x2 } else { x1 };
    let xs = if lo < 0 { 0 } else { lo };
    let xe = if hi >= width { width - 1 } else { hi };
    if 0 <= y < height && xs <= xe {
        seq![Span { y: y as usize, x_start: xs as usize, x_end: xe as usize }]
    } else {
        Seq::empty()
    }
}

/// Rows `p0.y ..= p0.y + k - 1` of the upper half: between the long edge
/// p0-p2 and the edge p0-p1.
pub open spec fn upper_spans(p0: Point2D, p1: Point2D, p2: Point2D, width: int, height: int, k: int) -> Seq<Span>
    decreases k,
{
    if k <= 0 {
        Seq::empty()
    } else {
        let y = p0.y + k - 1;
        let x1 = interp(p0.x as int, p2.x as int, y - p0.y, p2.y - p0.y);
        let x2 = if p1.y - p0.y > 0 { interp(p0.x as int, p1.x as int, y - p0.y, p1.y - p0.y) } else { x1 };
        upper_spans(p0, p1, p2, width, height, k - 1) + row_span(y, x1, x2, width, height)
    }
}

/// Rows `p1.y ..= p1.y + k - 1` of the lower half: between the long edge
/// p0-p2 and the edge p1-p2.
pub open spec fn lower_spans(p0: Point2D, p1: Point2D, p2: Point2D, width: int, height: int, k: int) -> Seq<Span>
    decreases k,
{
    if k <= 0 {
        Seq::empty()
    } else {
        let y = p1.y + k - 1;
        let x1 = interp(p0.x as int, p2.x as int, y - p0.y, p2.y - p0.y);
        let x2 = if p2.y - p1.y > 0 { interp(p1.x as int, p2.x as int, y - p1.y, p2.y - p1.y) } else { x1 };
        lower_spans(p0, p1, p2, width, height, k - 1) + row_span(y, x1, x2, width, height)
    }
}

/// The spans a triangle fills: none for a flat one; otherwise the upper
/// half's rows then the lower half's (the middle row twice).
pub open spec fn triangle_spans(v0: Point2D, v1: Point2D, v2: Point2D, width: int, height: int) -> Seq<Span> {
    let (p0, p1, p2) = sorted3(v0, v1, v2);
    if p2.y - p0.y == 0 {
        Seq::empty()
    } else {
        upper_spans(p0, p1, p2, width, height, p1.y - p0.y + 1) + lower_spans(p0, p1, p2, width, height, p2.y - p1.y + 1)
    }
}

/// Every span lies on the framebuffer and is not empty.
pub open spec fn spans_on_screen(spans: Seq<Span>, width: int, height: int) -> bool {
    forall|i: int| 0 <= i < spans.len() ==> {
        &&& (#[trigger] spans[i]).x_start <= spans[i].x_end
        &&& spans[i].x_end < width
        &&& spans[i].y < height
    }
}

proof fn lemma_concat_on_screen(a: Seq<Span>, b: Seq<Span>, width: int, height: int)
    requires
        spans_on_screen(a, width, height),
        spans_on_screen(b, width, height),
    ensures
        spans_on_screen(a + b, width, height),
{
    assert forall|i: int| 0 <= i < (a + b).len() implies {
        &&& (#[trigger] (a + b)[i]).x_start <= (a + b)[i].x_end
        &&& (a + b)[i].x_end < width
        &&& (a + b)[i].y < height
    } by {
        if i < a.len() {
            assert((a + b)[i] == a[i]);
        } else {
            assert((a + b)[i] == b[i - a.len()]);
        }
    }
}

proof fn lemma_row_on_screen(y: int, x1: int, x2: int, width: int, height: int)
    requires
        1 <= width <= isize::MAX,
        height <= isize::MAX,
    ensures
        spans_on_screen(row_span(y, x1, x2, width, height), width, height),
{
}

proof fn lemma_upper_on_screen(p0: Point2D, p1: Point2D, p2: Point2D, width: int, height: int, k: int)
    requires
        1 <= width <= isize::MAX,
        height <= isize::MAX,
    ensures
        spans_on_screen(upper_spans(p0, p1, p2, width, height, k), width, height),
    decreases k,
{
    if k > 0 {
        lemma_upper_on_screen(p0, p1, p2, width, height, k - 1);
        let y = p0.y + k - 1;
        let x1 = interp(p0.x as int, p2.x as int, y - p0.y, p2.y - p0.y);
        let x2 = if p1.y - p0.y > 0 { interp(p0.x as int, p1.x as int, y - p0.y, p1.y - p0.y) } else { x1 };
        lemma_row_on_screen(y, x1, x2, width, height);
        lemma_concat_on_screen(upper_spans(p0, p1, p2, width, height, k - 1), row_span(y, x1, x2, width, height), width, height);
    }
}

proof fn lemma_lower_on_screen(p0: Point2D, p1: Point2D, p2: Point2D, width: int, height: int, k: int)
    requires
        1 <= width <= isize::MAX,
        height <= isize::MAX,
    ensures
        spans_on_screen(lower_spans(p0, p1, p2, width, height, k), width, height),
    decreases k,
{
    if k > 0 {
        lemma_lower_on_screen(p0, p1, p2, width, height, k - 1);
        let y = p1.y + k - 1;
        let x1 = interp(p0.x as int, p2.x as int, y - p0.y, p2.y - p0.y);
        let x2 = if p2.y - p1.y > 0 { interp(p1.x as int, p2.x as int, y - p1.y, p2.y - p1.y) } else { x1 };
        lemma_row_on_screen(y, x1, x2, width, height);
        lemma_concat_on_screen(lower_spans(p0, p1, p2, width, height, k - 1), row_span(y, x1, x2, width, height), width, height);
    }
}

/// Whatever the triangle, its spans lie on the framebuffer.
pub proof fn lemma_triangle_spans_on_screen(v0: Point2D, v1: Point2D, v2: Point2D, width: int, height: int)
    requires
        1 <= width <= isize::MAX,
        height <= isize::MAX,
    ensures
        spans_on_screen(triangle_spans(v0, v1, v2, width, height), width, height),
{
    let (p0, p1, p2) = sorted3(v0, v1, v2);
    lemma_upper_on_screen(p0, p1, p2, width, height, p1.y - p0.y + 1);
    lemma_lower_on_screen(p0, p1, p2, width, height, p2.y - p1.y + 1);
    lemma_concat_on_screen(
        upper_spans(p0, p1, p2, width, height, p1.y - p0.y + 1),
        lower_spans(p0, p1, p2, width, height, p2.y - p1.y + 1),
        width,
        height,
    );
}

fn push_row(spans: &mut Vec<Span>, y: isize, x1: isize, x2: isize, width: isize, height: isize)
    requires
        width >= 1,
        height >= 1,
    ensures
        final(spans)@ == old(spans)@ + row_span(y as int, x1 as int, x2 as int, width as int, height as int),
{
    let (mut xs, mut xe) = if x1 < x2 { (x1, x2) } else { (x2, x1) };
    if xs < 0 {
        xs = 0;
    }
    if xe >= width {
        xe = width - 1;
    }
    if y >= 0 && y < height && xs <= xe {
        spans.push(Span { y: y as usize, x_start: xs as usize, x_end: xe as usize });
    }
    assert(spans@ =~= old(spans)@ + row_span(y as int, x1 as int, x2 as int, width as int, height as int));
}

/// The spans of the triangle (v0, v1, v2) on a `width`×`height`
/// framebuffer, filled row by row between its edges.
pub fn fill_triangle(v0: Point2D, v1: Point2D, v2: Point2D, width: isize, height: isize) -> (spans: Vec<Span>)
    requires
        width >= 1,
        height >= 1,
        coord_ok(v0.x) && coord_ok(v0.y),
        coord_ok(v1.x) && coord_ok(v1.y),
        coord_ok(v2.x) && coord_ok(v2.y),
    ensures
        spans@ == triangle_spans(v0, v1, v2, width as int, height as int),
        spans_on_screen(spans@, width as int, height as int),
{
    proof {
        lemma_triangle_spans_on_screen(v0, v1, v2, width as int, height as int);
    }
    let (a, b) = if v0.y > v1.y { (v1, v0) } else { (v0, v1) };
    let (b2, c) = if b.y > v2.y { (v2, b) } else { (b, v2) };
    let (p0, p1) = if a.y > b2.y { (b2, a) } else { (a, b2) };
    let p2 = c;
    assert((p0, p1, p2) == sorted3(v0, v1, v2));
    let mut spans: Vec<Span> = Vec::new();
    let total_height = p2.y - p0.y;
    if total_height == 0 {
        return spans;
    }
    let segment = p1.y - p0.y;
    let mut y = p0.y;
    while y <= p1.y
        invariant
            p0.y <= y <= p1.y + 1,
            p0.y <= p1.y <= p2.y,
            total_height == p2.y - p0.y,
            total_height > 0,
            segment == p1.y - p0.y,
            width >= 1,
            height >= 1,
            coord_ok(p0.x) && coord_ok(p0.y) && coord_ok(p1.x) && coord_ok(p1.y) && coord_ok(p2.x) && coord_ok(p2.y),
            spans@ == upper_spans(p0, p1, p2, width as int, height as int, y - p0.y),
        decreases p1.y + 1 - y,
    {
        let x1 = interpolate_x(p0.x, p2.x, y - p0.y, total_height);
        let x2 = if segment > 0 { interpolate_x(p0.x, p1.x, y - p0.y, segment) } else { x1 };
        push_row(&mut spans, y, x1, x2, width, height);
        y = y + 1;
    }
    let ghost upper = spans@;
    let lower_h = p2.y - p1.y;
    let mut y2 = p1.y;
    while y2 <= p2.y
        invariant
            p1.y <= y2 <= p2.y + 1,
            p0.y <= p1.y <= p2.y,
            total_height == p2.y - p0.y,
            total_height > 0,
            lower_h == p2.y - p1.y,
            width >= 1,
            height >= 1,
            coord_ok(p0.x) && coord_ok(p0.y) && coord_ok(p1.x) && coord_ok(p1.y) && coord_ok(p2.x) && coord_ok(p2.y),
            spans@ == upper + lower_spans(p0, p1, p2, width as int, height as int, y2 - p1.y),
        decreases p2.y + 1 - y2,
    {
        let x1 = interpolate_x(p0.x, p2.x, y2 - p0.y, total_height);
        let x2 = if lower_h > 0 { interpolate_x(p1.x, p2.x, y2 - p1.y, lower_h) } else { x1 };
        push_row(&mut spans, y2, x1, x2, width, height);
        y2 = y2 + 1;
    }
    spans
}

} // verus!
