//! The static layer of the HUD: the header, sidebar, panels, log window and
//! navigation dock, laid out for a framebuffer size as a list of drawing
//! operations, and the 7×7 icons as pixel lists.
use vstd::prelude::*;
use crate::gpu::framebuffer::{Color, Rect};
use crate::net::ssdp::{starts, starts_with_chars};

verus! {

/// The HUD's colours.
#[derive(Debug, Clone, Copy, PartialEq, Eq, Structural)]
pub enum Palette {
    BgDark,
    BgPanel,
    BgPanel2,
    BorderDim,
    BorderGlow,
    Cyan,
    CyanDim,
    CyanGlow,
    CyanBg,
    Green,
    White,
    WhiteDim,
    Purple,
    Yellow,
    Alert,
}

/// The RGB value of a palette entry.
pub open spec fn palette_rgb(p: Palette) -> Color {
    match p {
        Palette::BgDark => Color { r: 8, g: 8, b: 14 },
        Palette::BgPanel => Color { r: 12, g: 12, b: 20 },
        Palette::BgPanel2 => Color { r: 10, g: 10, b: 18 },
        Palette::BorderDim => Color { r: 18, g: 18, b: 30 },
        Palette::BorderGlow => Color { r: 0, g: 60, b: 90 },
        Palette::Cyan => Color { r: 0, g: 220, b: 255 },
        Palette::CyanDim => Color { r: 0, g: 140, b: 200 },
        Palette::CyanGlow => Color { r: 0, g: 80, b: 140 },
        Palette::CyanBg => Color { r: 0, g: 30, b: 50 },
        Palette::Green => Color { r: 0, g: 255, b: 150 },
        Palette::White => Color { r: 200, g: 200, b: 200 },
        Palette::WhiteDim => Color { r: 100, g: 100, b: 115 },
        Palette::Purple => Color { r: 160, g: 60, b: 255 },
        Palette::Yellow => Color { r: 220, g: 200, b: 0 },
        Palette::Alert => Color { r: 255, g: 50, b: 50 },
    }
}

impl Palette {
    /// The entry's RGB value.
    pub fn rgb(self) -> (c: Color)
        ensures
            c == palette_rgb(self),
    {
        match self {
            Palette::BgDark => Color { r: 8, g: 8, b: 14 },
            Palette::BgPanel => Color { r: 12, g: 12, b: 20 },
            Palette::BgPanel2 => Color { r: 10, g: 10, b: 18 },
            Palette::BorderDim => Color { r: 18, g: 18, b: 30 },
            Palette::BorderGlow => Color { r: 0, g: 60, b: 90 },
            Palette::Cyan => Color { r: 0, g: 220, b: 255 },
            Palette::CyanDim => Color { r: 0, g: 140, b: 200 },
            Palette::CyanGlow => Color { r: 0, g: 80, b: 140 },
            Palette::CyanBg => Color { r: 0, g: 30, b: 50 },
            Palette::Green => Color { r: 0, g: 255, b: 150 },
            Palette::White => Color { r: 200, g: 200, b: 200 },
            Palette::WhiteDim => Color { r: 100, g: 100, b: 115 },
            Palette::Purple => Color { r: 160, g: 60, b: 255 },
            Palette::Yellow => Color { r: 220, g: 200, b: 0 },
            Palette::Alert => Color { r: 255, g: 50, b: 50 },
        }
    }
}

/// One drawing operation on the framebuffer.
#[derive(Debug, Clone, Copy, PartialEq, Eq)]
pub enum DrawOp {
    /// Clear the whole framebuffer.
    Clear,
    /// Fill a rectangle.
    FillRect { rect: Rect, color: Palette },
    /// Outline a rectangle.
    DrawRect { rect: Rect, color: Palette },
    /// Write a string with its top-left corner at (x, y).
    Text { x: usize, y: usize, text: &'static str, color: Palette },
    /// Draw icon number `icon` with its top-left corner at (x, y).
    Icon { x: usize, y: usize, icon: usize, color: Palette },
    /// Fill a circle.
    FilledCircle { cx: isize, cy: isize, r: isize, color: Palette },
}

/// Header height.
pub const HEADER_H: usize = 32;
/// Sidebar left edge.
pub const SIDEBAR_X: usize = 10;
/// Sidebar width.
pub const SIDEBAR_W: usize = 40;
/// Top of the sidebar and of the panels.
pub const SIDEBAR_TOP: usize = 48;
/// Health panel left edge.
pub const PANEL1_X: usize = 60;
/// Health panel width.
pub const PANEL1_W: usize = 340;
/// Health panel height.
pub const PANEL1_H: usize = 130;
/// Swarm visualiser width.
pub const SWARM_W: usize = 500;
/// Swarm visualiser height.
pub const SWARM_H: usize = 400;
/// Top of the swarm visualiser.
pub const SWARM_TOP: usize = 48;
/// Log window height.
pub const LOG_H: usize = 54;
/// Dock height.
pub const DOCK_H: usize = 30;
/// Dock width.
pub const DOCK_W: usize = 540;
/// Icon side length.
pub const ICON_SIZE: usize = 7;

/// Bitmap rows (bit 6 is the leftmost pixel) of icon `t`: square, person,
/// network, shield, microphone, logs, network navigation, nodes, security.
pub open spec fn icon_rows(t: int) -> Seq<u8> {
    if t == 0 {
        seq![0x3E, 0x22, 0x22, 0x22, 0x22, 0x22, 0x3E]
    } else if t == 1 {
        seq![0x1C, 0x22, 0x22, 0x1C, 0x08, 0x1C, 0x22]
    } else if t == 2 {
        seq![0x41, 0x22, 0x14, 0x08, 0x14, 0x22, 0x41]
    } else if t == 3 {
        seq![0x3E, 0x7F, 0x63, 0x63, 0x77, 0x3E, 0x1C]
    } else if t == 4 {
        seq![0x1C, 0x22, 0x22, 0x22, 0x22, 0x22, 0x1C]
    } else if t == 5 {
        seq![0x7E, 0x42, 0x7E, 0x42, 0x7E, 0x42, 0x7E]
    } else if t == 6 {
        seq![0x22, 0x55, 0x22, 0x5D, 0x22, 0x55, 0x22]
    } else if t == 7 {
        seq![0x14, 0x22, 0x41, 0x00, 0x41, 0x22, 0x14]
    } else {
        seq![0x3E, 0x7F, 0x7F, 0x63, 0x63, 0x3E, 0x1C]
    }
}

/// The number of icons.
pub const ICON_COUNT: usize = 9;

fn icon_row(t: usize, row: usize) -> (b: u8)
    requires
        t < ICON_COUNT,
        row < 7,
    ensures
        b == icon_rows(t as int)[row as int],
{
    let rows: [u8; 7] = if t == 0 {
        [0x3E, 0x22, 0x22, 0x22, 0x22, 0x22, 0x3E]
    } else if t == 1 {
        [0x1C, 0x22, 0x22, 0x1C, 0x08, 0x1C, 0x22]
    } else if t == 2 {
        [0x41, 0x22, 0x14, 0x08, 0x14, 0x22, 0x41]
    } else if t == 3 {
        [0x3E, 0x7F, 0x63, 0x63, 0x77, 0x3E, 0x1C]
    } else if t == 4 {
        [0x1C, 0x22, 0x22, 0x22, 0x22, 0x22, 0x1C]
    } else if t == 5 {
        [0x7E, 0x42, 0x7E, 0x42, 0x7E, 0x42, 0x7E]
    } else if t == 6 {
        [0x22, 0x55, 0x22, 0x5D, 0x22, 0x55, 0x22]
    } else if t == 7 {
        [0x14, 0x22, 0x41, 0x00, 0x41, 0x22, 0x14]
    } else {
        [0x3E, 0x7F, 0x7F, 0x63, 0x63, 0x3E, 0x1C]
    };
    assert(rows@ =~= icon_rows(t as int));
    rows[row]
}

/// Pixel (dx, dy) of a bitmap is set when bit `6 - dx` of row `dy` is.
pub open spec fn bit_set(row: u8, dx: int) -> bool {
    (row >> ((6 - dx) as u8)) & 1 != 0
}

/// The pixels of a 7-column bitmap at (x, y), row by row, left to right.
pub open spec fn bitmap_pixels(x: usize, y: usize, rows: Seq<u8>, n: int) -> Seq<(usize, usize)>
    decreases n,
{
    if n <= 0 {
        Seq::empty()
    } else {
        let k = n - 1;
        let dy = k / 7;
        let dx = k % 7;
        bitmap_pixels(x, y, rows, k) + (if bit_set(rows[dy], dx) {
            seq![((x + dx) as usize, (y + dy) as usize)]
        } else {
            Seq::empty()
        })
    }
}

/// The pixels set by icon `t` at (x, y); none for an unknown icon.
pub fn icon_pixels(x: usize, y: usize, t: usize) -> (px: Vec<(usize, usize)>)
    requires
        x + 7 <= usize::MAX,
        y + 7 <= usize::MAX,
    ensures
        t >= ICON_COUNT ==> px@.len() == 0,
        t < ICON_COUNT ==> px@ == bitmap_pixels(x, y, icon_rows(t as int), 49),
{
    let mut px: Vec<(usize, usize)> = Vec::new();
    if t >= ICON_COUNT {
        return px;
    }
    let mut dy: usize = 0;
    while dy < 7
        invariant
            dy <= 7,
            t < ICON_COUNT,
            x + 7 <= usize::MAX,
            y + 7 <= usize::MAX,
            px@ == bitmap_pixels(x, y, icon_rows(t as int), 7 * dy),
        decreases 7 - dy,
    {
        let row = icon_row(t, dy);
        let mut dx: usize = 0;
        while dx < 7
            invariant
                dx <= 7,
                dy < 7,
                t < ICON_COUNT,
                row == icon_rows(t as int)[dy as int],
                x + 7 <= usize::MAX,
                y + 7 <= usize::MAX,
                px@ == bitmap_pixels(x, y, icon_rows(t as int), 7 * dy + dx),
            decreases 7 - dx,
        {
            let ghost k = 7 * dy + dx;
            assert(k / 7 == dy && k % 7 == dx) by (nonlinear_arith)
                requires
                    k == 7 * dy + dx,
                    dx < 7,
            ;
            let shift: u8 = (6 - dx) as u8;
            if (row >> shift) & 1 != 0 {
                px.push((x + dx, y + dy));
            }
            dx = dx + 1;
        }
        dy = dy + 1;
    }
    px
}

/// The navigation dock's labels and icons, left to right.
pub open spec fn nav_label(i: int) -> &'static str {
    if i == 0 {
        "VOICE"
    } else if i == 1 {
        "LOGS"
    } else if i == 2 {
        "NETWORK"
    } else if i == 3 {
        "NODES"
    } else {
        "SECURITY"
    }
}

/// Byte lengths of the dock labels.
pub open spec fn nav_label_len(i: int) -> int {
    if i == 0 {
        5
    } else if i == 1 {
        4
    } else if i == 2 {
        7
    } else if i == 3 {
        5
    } else {
        8
    }
}

/// Width of one dock item.
pub open spec fn nav_item_w() -> int {
    (DOCK_W - 30) / 5
}

/// Left edge of dock item `i` on a framebuffer `w` wide.
pub open spec fn nav_x(w: usize, i: int) -> int {
    w / 2 - DOCK_W / 2 + 15 + i * nav_item_w()
}

/// Top of the dock.
pub open spec fn dock_y(h: usize) -> int {
    h - DOCK_H - 6
}

/// The operations of dock item `i`: the highlight behind the first, the
/// icon and the centred label (the first in cyan, the others dim).
pub open spec fn nav_item_ops(w: usize, h: usize, i: int) -> Seq<DrawOp> {
    let nx = nav_x(w, i);
    let color = if i == 0 { Palette::Cyan } else { Palette::WhiteDim };
    (if i == 0 {
        seq![DrawOp::FillRect {
            rect: Rect { x: (nx - 5) as usize, y: (dock_y(h) + 2) as usize, width: (nav_item_w() + 10) as usize, height: (DOCK_H - 4) as usize },
            color: Palette::CyanBg,
        }]
    } else {
        Seq::empty()
    }) + seq![
        DrawOp::Icon { x: (nx + (nav_item_w() - ICON_SIZE) / 2) as usize, y: (dock_y(h) + 4) as usize, icon: (i + 4) as usize, color },
        DrawOp::Text {
            x: (nx + (nav_item_w() - nav_label_len(i) * 8) / 2) as usize,
            y: (dock_y(h) + DOCK_H - 10) as usize,
            text: nav_label(i),
            color,
        },
    ]
}

/// The operations of the first `n` dock items.
pub open spec fn nav_ops(w: usize, h: usize, n: int) -> Seq<DrawOp>
    decreases n,
{
    if n <= 0 {
        Seq::empty()
    } else {
        nav_ops(w, h, n - 1) + nav_item_ops(w, h, n - 1)
    }
}

/// Rectangle shorthand.
pub open spec fn rect(x: int, y: int, width: int, height: int) -> Rect {
    Rect { x: x as usize, y: y as usize, width: width as usize, height: height as usize }
}

/// A filled and outlined panel.
pub open spec fn panel(r: Rect, fill: Palette, border: Palette) -> Seq<DrawOp> {
    seq![DrawOp::FillRect { rect: r, color: fill }, DrawOp::DrawRect { rect: r, color: border }]
}

/// The header: background, bottom border, title, version and the
/// "LIVE CORE ACTIVE" pill at the right edge.
pub open spec fn header_ops(w: usize) -> Seq<DrawOp> {
    let pill_x = w - 195;
    seq![
        DrawOp::FillRect { rect: rect(0, 0, w as int, HEADER_H as int), color: Palette::BgPanel },
        DrawOp::FillRect { rect: rect(0, HEADER_H - 1, w as int, 1), color: Palette::BorderGlow },
        DrawOp::Text { x: 15, y: 9, text: "JARVIS OS", color: Palette::Cyan },
        DrawOp::Text { x: 120, y: 13, text: "SYS_VER: 4.0_ALPHA", color: Palette::CyanDim },
    ] + panel(rect(pill_x, 7, 180, 18), Palette::CyanBg, Palette::CyanGlow) + seq![
        DrawOp::FilledCircle { cx: (pill_x + 15) as isize, cy: 16, r: 3, color: Palette::Green },
        DrawOp::Text { x: (pill_x + 25) as usize, y: 12, text: "LIVE CORE ACTIVE", color: Palette::Cyan },
    ]
}

/// The sidebar with its four icons.
pub open spec fn sidebar_ops() -> Seq<DrawOp> {
    let ixx = SIDEBAR_X + (SIDEBAR_W - ICON_SIZE) / 2;
    panel(rect(SIDEBAR_X as int, SIDEBAR_TOP as int, SIDEBAR_W as int, 295), Palette::BgPanel, Palette::BorderDim)
        + seq![
        DrawOp::Icon { x: ixx as usize, y: (SIDEBAR_TOP + 15) as usize, icon: 0, color: Palette::Cyan },
        DrawOp::Icon { x: ixx as usize, y: (SIDEBAR_TOP + 85) as usize, icon: 1, color: Palette::Green },
        DrawOp::Icon { x: ixx as usize, y: (SIDEBAR_TOP + 155) as usize, icon: 2, color: Palette::Cyan },
        DrawOp::Icon { x: ixx as usize, y: (SIDEBAR_TOP + 225) as usize, icon: 3, color: Palette::Purple },
    ]
}

/// The health panel, the swarm visualiser at the right edge, the log window
/// above the dock and the dock itself.
pub open spec fn panels_ops(w: usize, h: usize) -> Seq<DrawOp> {
    let sw_x = w - SWARM_W - 10;
    let log_y = h - LOG_H - DOCK_H - 12;
    let dock_x = w / 2 - DOCK_W / 2;
    panel(rect(PANEL1_X as int, SIDEBAR_TOP as int, PANEL1_W as int, PANEL1_H as int), Palette::BgPanel, Palette::BorderDim)
        + seq![DrawOp::Text { x: (PANEL1_X + 12) as usize, y: (SIDEBAR_TOP + 8) as usize, text: "SUBSTRATE HEALTH", color: Palette::CyanDim }]
        + panel(rect(sw_x, SWARM_TOP as int, SWARM_W as int, SWARM_H as int), Palette::BgPanel, Palette::BorderDim)
        + seq![
        DrawOp::Text { x: (sw_x + 12) as usize, y: (SWARM_TOP + 8) as usize, text: "SWARM VISUALIZER", color: Palette::CyanDim },
        DrawOp::Text { x: (sw_x + SWARM_W - 55) as usize, y: (SWARM_TOP + 8) as usize, text: "LIVE", color: Palette::Green },
    ] + panel(rect(10, log_y, w - 20, LOG_H as int), Palette::BgPanel, Palette::BorderDim)
        + panel(rect(dock_x, dock_y(h), DOCK_W as int, DOCK_H as int), Palette::BgPanel, Palette::BorderGlow)
}

/// The whole static layer for a `w`×`h` framebuffer, in drawing order.
pub open spec fn static_layout(w: usize, h: usize) -> Seq<DrawOp> {
    seq![DrawOp::FillRect { rect: rect(0, 0, w as int, h as int), color: Palette::BgDark }] + header_ops(w)
        + sidebar_ops() + panels_ops(w, h) + nav_ops(w, h, 5)
}

/// The smallest framebuffer the layout fits: the dock and the swarm panel
/// need the width, the log window and dock the height.
pub open spec fn fits(w: usize, h: usize) -> bool {
    DOCK_W <= w <= isize::MAX && LOG_H + DOCK_H + 12 <= h
}

fn push_panel(ops: &mut Vec<DrawOp>, r: Rect, fill: Palette, border: Palette)
    ensures
        final(ops)@ == old(ops)@ + panel(r, fill, border),
{
    ops.push(DrawOp::FillRect { rect: r, color: fill });
    ops.push(DrawOp::DrawRect { rect: r, color: border });
}

fn nav_text(i: usize) -> (t: (&'static str, usize))
    requires
        i < 5,
    ensures
        t.0 == nav_label(i as int),
        t.1 == nav_label_len(i as int),
{
    if i == 0 {
        ("VOICE", 5)
    } else if i == 1 {
        ("LOGS", 4)
    } else if i == 2 {
        ("NETWORK", 7)
    } else if i == 3 {
        ("NODES", 5)
    } else {
        ("SECURITY", 8)
    }
}

/// Lays out the static layer for a `w`×`h` framebuffer.
pub fn draw_static(w: usize, h: usize) -> (ops: Vec<DrawOp>)
    requires
        fits(w, h),
    ensures
        ops@ == static_layout(w, h),
{
    let mut ops: Vec<DrawOp> = Vec::new();
    ops.push(DrawOp::FillRect { rect: Rect { x: 0, y: 0, width: w, height: h }, color: Palette::BgDark });
    let ghost base = ops@;
    ops.push(DrawOp::FillRect { rect: Rect { x: 0, y: 0, width: w, height: HEADER_H }, color: Palette::BgPanel });
    ops.push(DrawOp::FillRect { rect: Rect { x: 0, y: HEADER_H - 1, width: w, height: 1 }, color: Palette::BorderGlow });
    ops.push(DrawOp::Text { x: 15, y: 9, text: "JARVIS OS", color: Palette::Cyan });
    ops.push(DrawOp::Text { x: 120, y: 13, text: "SYS_VER: 4.0_ALPHA", color: Palette::CyanDim });
    let pill_x = w - 195;
    push_panel(&mut ops, Rect { x: pill_x, y: 7, width: 180, height: 18 }, Palette::CyanBg, Palette::CyanGlow);
    ops.push(DrawOp::FilledCircle { cx: (pill_x + 15) as isize, cy: 16, r: 3, color: Palette::Green });
    ops.push(DrawOp::Text { x: pill_x + 25, y: 12, text: "LIVE CORE ACTIVE", color: Palette::Cyan });
    assert(ops@ =~= base + header_ops(w));
    let ghost after_header = ops@;

    let ixx = SIDEBAR_X + (SIDEBAR_W - ICON_SIZE) / 2;
    push_panel(&mut ops, Rect { x: SIDEBAR_X, y: SIDEBAR_TOP, width: SIDEBAR_W, height: 295 }, Palette::BgPanel, Palette::BorderDim);
    ops.push(DrawOp::Icon { x: ixx, y: SIDEBAR_TOP + 15, icon: 0, color: Palette::Cyan });
    ops.push(DrawOp::Icon { x: ixx, y: SIDEBAR_TOP + 85, icon: 1, color: Palette::Green });
    ops.push(DrawOp::Icon { x: ixx, y: SIDEBAR_TOP + 155, icon: 2, color: Palette::Cyan });
    ops.push(DrawOp::Icon { x: ixx, y: SIDEBAR_TOP + 225, icon: 3, color: Palette::Purple });
    assert(ops@ =~= after_header + sidebar_ops());
    let ghost after_sidebar = ops@;

    push_panel(&mut ops, Rect { x: PANEL1_X, y: SIDEBAR_TOP, width: PANEL1_W, height: PANEL1_H }, Palette::BgPanel, Palette::BorderDim);
    ops.push(DrawOp::Text { x: PANEL1_X + 12, y: SIDEBAR_TOP + 8, text: "SUBSTRATE HEALTH", color: Palette::CyanDim });
    let sw_x = w - SWARM_W - 10;
    push_panel(&mut ops, Rect { x: sw_x, y: SWARM_TOP, width: SWARM_W, height: SWARM_H }, Palette::BgPanel, Palette::BorderDim);
    ops.push(DrawOp::Text { x: sw_x + 12, y: SWARM_TOP + 8, text: "SWARM VISUALIZER", color: Palette::CyanDim });
    ops.push(DrawOp::Text { x: sw_x + SWARM_W - 55, y: SWARM_TOP + 8, text: "LIVE", color: Palette::Green });
    let log_y = h - LOG_H - DOCK_H - 12;
    push_panel(&mut ops, Rect { x: 10, y: log_y, width: w - 20, height: LOG_H }, Palette::BgPanel, Palette::BorderDim);
    let dock_top = h - DOCK_H - 6;
    let center_x = w / 2;
    push_panel(&mut ops, Rect { x: center_x - DOCK_W / 2, y: dock_top, width: DOCK_W, height: DOCK_H }, Palette::BgPanel, Palette::BorderGlow);
    assert(ops@ =~= after_sidebar + panels_ops(w, h));
    let ghost after_panels = ops@;

    let nav_start = center_x - DOCK_W / 2 + 15;
    let item_w = (DOCK_W - 30) / 5;
    let mut i: usize = 0;
    while i < 5
        invariant
            i <= 5,
            fits(w, h),
            nav_start == w / 2 - DOCK_W / 2 + 15,
            item_w == nav_item_w(),
            item_w == 102,
            dock_top == dock_y(h),
            ops@ == after_panels + nav_ops(w, h, i as int),
        decreases 5 - i,
    {
        let nx = nav_start + i * item_w;
        let color = if i == 0 { Palette::Cyan } else { Palette::WhiteDim };
        let ghost before = ops@;
        if i == 0 {
            ops.push(DrawOp::FillRect {
                rect: Rect { x: nx - 5, y: dock_top + 2, width: item_w + 10, height: DOCK_H - 4 },
                color: Palette::CyanBg,
            });
        }
        ops.push(DrawOp::Icon { x: nx + (item_w - ICON_SIZE) / 2, y: dock_top + 4, icon: i + 4, color });
        let (label, len) = nav_text(i);
        ops.push(DrawOp::Text { x: nx + (item_w - len * 8) / 2, y: dock_top + DOCK_H - 10, text: label, color });
        assert(ops@ =~= before + nav_item_ops(w, h, i as int));
        i = i + 1;
    }
    assert(ops@ =~= static_layout(w, h));
    ops
}

/// The start-up screen: clear the framebuffer, then draw the static layer.
pub fn init_ui(w: usize, h: usize) -> (ops: Vec<DrawOp>)
    requires
        fits(w, h),
    ensures
        ops@ == seq![DrawOp::Clear] + static_layout(w, h),
{
    let mut ops: Vec<DrawOp> = Vec::new();
    ops.push(DrawOp::Clear);
    let mut rest = draw_static(w, h);
    ops.append(&mut rest);
    ops
}

/// The simulated CPU load shown at frame `tick`: 45 plus a value below 20
/// from the tick's bits.
pub open spec fn cpu_load_at(tick: u64) -> u8 {
    (45 + ((vstd::wrapping::u64_specs::wrapping_mul(tick, 7) ^ (tick >> 2)) % 20)) as u8
}

/// The simulated CPU load shown at frame `tick`.
pub fn cpu_load(tick: u64) -> (cpu: u8)
    ensures
        cpu == cpu_load_at(tick),
        45 <= cpu < 65,
{
    let v = (tick.wrapping_mul(7) ^ (tick >> 2)) % 20;
    45 + v as u8
}

/// The gauge's accent: green below 70 %, yellow below 90 %, red above.
pub fn gauge_accent(cpu: u8) -> (p: Palette)
    ensures
        p == (if cpu < 70 { Palette::Green } else if cpu < 90 { Palette::Yellow } else { Palette::Alert }),
{
    if cpu < 70 {
        Palette::Green
    } else if cpu < 90 {
        Palette::Yellow
    } else {
        Palette::Alert
    }
}

/// Width of the load bar (195 pixels at 100 %).
pub fn load_bar_width(cpu: u8) -> (w: usize)
    ensures
        w == (if cpu < 100 { cpu as int } else { 100 }) * 195 / 100,
{
    let c: usize = if cpu < 100 { cpu as usize } else { 100 };
    c * 195 / 100
}

/// The log window's messages.
pub open spec fn log_line(i: int) -> &'static str {
    if i == 0 {
        "[SYS]  INITIALIZING SYNTHESIS SEQUENCE..."
    } else if i == 1 {
        "[ENG]  ANALYZING SECURITY PATCH: 0x993B..."
    } else if i == 2 {
        "[DRV]  SYNTHESIZING NEURAL DRIVER FOR NODE 04"
    } else if i == 3 {
        "[SYS]  LOAD BALANCING CROSS-GATEWAY PROTOCOLS"
    } else if i == 4 {
        "[NET]  SWARM SYNC COMPLETE (LATENCY 0.2ms)"
    } else if i == 5 {
        "[EVO]  DEPLOYING AGENT_SHIELD v9.0.2"
    } else if i == 6 {
        "[SEC]  SCANNING VIRTUAL BOUNDARIES..."
    } else {
        "[NET]  PEER DISCOVERY: NODE 7 ACTIVE"
    }
}

/// The number of log messages.
pub const LOG_LINE_COUNT: usize = 8;

fn log_line_exec(i: usize) -> (s: &'static str)
    requires
        i < LOG_LINE_COUNT,
    ensures
        s == log_line(i as int),
{
    if i == 0 {
        "[SYS]  INITIALIZING SYNTHESIS SEQUENCE..."
    } else if i == 1 {
        "[ENG]  ANALYZING SECURITY PATCH: 0x993B..."
    } else if i == 2 {
        "[DRV]  SYNTHESIZING NEURAL DRIVER FOR NODE 04"
    } else if i == 3 {
        "[SYS]  LOAD BALANCING CROSS-GATEWAY PROTOCOLS"
    } else if i == 4 {
        "[NET]  SWARM SYNC COMPLETE (LATENCY 0.2ms)"
    } else if i == 5 {
        "[EVO]  DEPLOYING AGENT_SHIELD v9.0.2"
    } else if i == 6 {
        "[SEC]  SCANNING VIRTUAL BOUNDARIES..."
    } else {
        "[NET]  PEER DISCOVERY: NODE 7 ACTIVE"
    }
}

/// A message's colour by its tag: network and system cyan, evolution
/// green, security yellow, the rest dim cyan.
pub open spec fn log_color(m: Seq<char>) -> Palette {
    if starts(m, "[NET]"@) || starts(m, "[SYS]"@) {
        Palette::Cyan
    } else if starts(m, "[EVO]"@) {
        Palette::Green
    } else if starts(m, "[SEC]"@) {
        Palette::Yellow
    } else {
        Palette::CyanDim
    }
}

fn log_color_exec(m: &str) -> (p: Palette)
    ensures
        p == log_color(m@),
{
    if starts_with_chars(m, "[NET]") || starts_with_chars(m, "[SYS]") {
        Palette::Cyan
    } else if starts_with_chars(m, "[EVO]") {
        Palette::Green
    } else if starts_with_chars(m, "[SEC]") {
        Palette::Yellow
    } else {
        Palette::CyanDim
    }
}

/// The three log lines shown at frame `tick`, with their colours: the
/// message list scrolls by one every 15 frames.
pub fn log_window(tick: u64) -> (lines: Vec<(&'static str, Palette)>)
    ensures
        lines@.len() == 3,
        forall|k: int| 0 <= k < 3 ==> {
            let m = log_line(((tick as usize) / 15 % LOG_LINE_COUNT + k) % LOG_LINE_COUNT as int);
            #[trigger] lines@[k] == (m, log_color(m@))
        },
{
    let mi = (tick as usize / 15) % LOG_LINE_COUNT;
    let mut lines: Vec<(&'static str, Palette)> = Vec::new();
    let mut li: usize = 0;
    while li < 3
        invariant
            li <= 3,
            mi == (tick as usize) / 15 % LOG_LINE_COUNT,
            lines@.len() == li,
            forall|k: int| 0 <= k < li ==> {
                let m = log_line((mi + k) % LOG_LINE_COUNT as int);
                #[trigger] lines@[k] == (m, log_color(m@))
            },
        decreases 3 - li,
    {
        let msg = log_line_exec((mi + li) % LOG_LINE_COUNT);
        lines.push((msg, log_color_exec(msg)));
        li = li + 1;
    }
    lines
}

/// The eight reflections of (x, y) across the axes and diagonals, in the
/// order they are drawn.
pub open spec fn octant_offsets(x: int, y: int) -> Seq<(int, int)> {
    seq![(x, y), (y, x), (y, -x), (x, -y), (-x, -y), (-y, -x), (-y, x), (-x, y)]
}

/// The points `offs` around (cx, cy) that fall on a `w`×`h` framebuffer, in
/// order.
pub open spec fn visible_pixels(cx: int, cy: int, offs: Seq<(int, int)>, w: int, h: int) -> Seq<(usize, usize)>
    decreases offs.len(),
{
    if offs.len() == 0 {
        Seq::empty()
    } else {
        let rest = visible_pixels(cx, cy, offs.drop_last(), w, h);
        let px = cx + offs.last().0;
        let py = cy + offs.last().1;
        if 0 <= px < w && 0 <= py < h {
            rest.push((px as usize, py as usize))
        } else {
            rest
        }
    }
}

/// The pixels the midpoint circle walk draws from column `x`, row `y` and
/// decision value `d` on: the reflections of (x, y), then the walk from the
/// next column, one row down when `d` is positive; it ends when the row
/// falls below the column.
pub open spec fn circle_walk(cx: int, cy: int, x: int, y: int, d: int, w: int, h: int) -> Seq<(usize, usize)>
    decreases y - x + 2,
{
    if y < x {
        Seq::empty()
    } else {
        let x1 = x + 1;
        let (y1, d1) = if d > 0 {
            (y - 1, d + 2 * (x1 - (y - 1)) + 1)
        } else {
            (y, d + 2 * x1 + 1)
        };
        visible_pixels(cx, cy, octant_offsets(x, y), w, h) + circle_walk(cx, cy, x1, y1, d1, w, h)
    }
}

/// The outline of the circle of radius `r` around (cx, cy) on a `w`×`h`
/// framebuffer, as the midpoint walk draws it.
pub open spec fn circle_outline(cx: int, cy: int, r: int, w: int, h: int) -> Seq<(usize, usize)> {
    circle_walk(cx, cy, 0, r, 3 - 2 * r, w, h)
}

/// Centres and radii whose arithmetic stays within 64 bits.
pub open spec fn circle_ok(cx: isize, cy: isize, r: isize) -> bool {
    &&& -0x100_0000_0000 <= cx <= 0x100_0000_0000
    &&& -0x100_0000_0000 <= cy <= 0x100_0000_0000
    &&& r <= 0x10_0000
}

/// A point at offset (a, b) from the centre lies on the drawn circle of
/// radius `r`: its larger coordinate is the integer nearest to
/// sqrt(r² + r − 7/4 − s²), `s` being its smaller one.
pub open spec fn on_circle(a: int, b: int, r: int) -> bool {
    let aa = if a < 0 { -a } else { a };
    let bb = if b < 0 { -b } else { b };
    let lo = if aa <= bb { aa } else { bb };
    let hi = if aa <= bb { bb } else { aa };
    sq(2 * hi - 1) <= 4 * sq(r) + 4 * r - 7 - 4 * sq(lo) < sq(2 * hi + 1)
}

/// The square of `v`.
pub open spec fn sq(v: int) -> int {
    v * v
}

/// The walk's state: the decision value tracks the circle's equation, and a
/// state that is drawn has its row nearest to the circle in its column.
spec fn walk_state(x: int, y: int, d: int, r: int) -> bool {
    &&& 0 <= x
    &&& 4 * d == 4 * sq(x + 1) + sq(2 * y - 1) - (4 * sq(r) + 4 * r - 7)
    &&& y >= x ==> sq(2 * y - 1) <= 4 * sq(r) + 4 * r - 7 - 4 * sq(x) < sq(2 * y + 1)
}

proof fn lemma_walk_step(x: int, y: int, d: int, r: int)
    requires
        walk_state(x, y, d, r),
        y >= x,
    ensures
        d > 0 ==> walk_state(x + 1, y - 1, d + 2 * (x + 1 - (y - 1)) + 1, r),
        d <= 0 ==> walk_state(x + 1, y, d + 2 * (x + 1) + 1, r),
{
    assert(sq(x + 2) == sq(x + 1) + 2 * x + 3) by (nonlinear_arith);
    assert(sq(x + 1) == sq(x) + 2 * x + 1) by (nonlinear_arith);
    assert(sq(2 * y - 3) == sq(2 * y - 1) - 8 * y + 8) by (nonlinear_arith);
    assert(sq(2 * y + 1) == sq(2 * y - 1) + 8 * y) by (nonlinear_arith);
}

proof fn lemma_octants_on_circle(x: int, y: int, r: int)
    requires
        0 <= x <= y,
        sq(2 * y - 1) <= 4 * sq(r) + 4 * r - 7 - 4 * sq(x) < sq(2 * y + 1),
    ensures
        forall|j: int| 0 <= j < 8 ==> on_circle(#[trigger] octant_offsets(x, y)[j].0, octant_offsets(x, y)[j].1, r),
{
    assert forall|j: int| 0 <= j < 8 implies on_circle(#[trigger] octant_offsets(x, y)[j].0, octant_offsets(x, y)[j].1, r) by {
        assert(sq(-x) == sq(x)) by (nonlinear_arith);
        assert(sq(-y) == sq(y)) by (nonlinear_arith);
    }
}

proof fn lemma_visible_on_circle(cx: int, cy: int, offs: Seq<(int, int)>, w: int, h: int, r: int)
    requires
        w <= usize::MAX,
        h <= usize::MAX,
        forall|j: int| 0 <= j < offs.len() ==> on_circle(#[trigger] offs[j].0, offs[j].1, r),
    ensures
        forall|k: int| 0 <= k < visible_pixels(cx, cy, offs, w, h).len() ==> {
            let p = #[trigger] visible_pixels(cx, cy, offs, w, h)[k];
            &&& p.0 < w && p.1 < h
            &&& on_circle(p.0 - cx, p.1 - cy, r)
        },
    decreases offs.len(),
{
    if offs.len() > 0 {
        let init = offs.drop_last();
        assert forall|j: int| 0 <= j < init.len() implies on_circle(#[trigger] init[j].0, init[j].1, r) by {
            assert(init[j] == offs[j]);
        }
        lemma_visible_on_circle(cx, cy, init, w, h, r);
        let last = offs[offs.len() - 1];
        assert(on_circle(last.0, last.1, r));
        let rest = visible_pixels(cx, cy, init, w, h);
        let all = visible_pixels(cx, cy, offs, w, h);
        assert forall|k: int| 0 <= k < all.len() implies {
            let p = #[trigger] all[k];
            &&& p.0 < w && p.1 < h
            &&& on_circle(p.0 - cx, p.1 - cy, r)
        } by {
            if k < rest.len() {
                assert(all[k] == rest[k]);
            } else {
                let px = cx + last.0;
                let py = cy + last.1;
                assert(all[k] == (px as usize, py as usize));
                assert(px - cx == last.0 && py - cy == last.1);
            }
        }
    }
}

proof fn lemma_walk_on_circle(cx: int, cy: int, x: int, y: int, d: int, w: int, h: int, r: int)
    requires
        w <= usize::MAX,
        h <= usize::MAX,
        walk_state(x, y, d, r),
    ensures
        forall|k: int| 0 <= k < circle_walk(cx, cy, x, y, d, w, h).len() ==> {
            let p = #[trigger] circle_walk(cx, cy, x, y, d, w, h)[k];
            &&& p.0 < w && p.1 < h
            &&& on_circle(p.0 - cx, p.1 - cy, r)
        },
    decreases y - x + 2,
{
    if y >= x {
        let x1 = x + 1;
        let (y1, d1) = if d > 0 {
            (y - 1, d + 2 * (x1 - (y - 1)) + 1)
        } else {
            (y, d + 2 * x1 + 1)
        };
        lemma_walk_step(x, y, d, r);
        lemma_walk_on_circle(cx, cy, x1, y1, d1, w, h, r);
        lemma_octants_on_circle(x, y, r);
        lemma_visible_on_circle(cx, cy, octant_offsets(x, y), w, h, r);
        let a = visible_pixels(cx, cy, octant_offsets(x, y), w, h);
        let b = circle_walk(cx, cy, x1, y1, d1, w, h);
        assert(circle_walk(cx, cy, x, y, d, w, h) == a + b);
        assert forall|k: int| 0 <= k < (a + b).len() implies {
            let p = #[trigger] (a + b)[k];
            &&& p.0 < w && p.1 < h
            &&& on_circle(p.0 - cx, p.1 - cy, r)
        } by {
            if k < a.len() {
                assert((a + b)[k] == a[k]);
            } else {
                assert((a + b)[k] == b[k - a.len()]);
            }
        }
    }
}

/// Every pixel of the outline of a circle of radius at least 1 lies on the
/// framebuffer and on the circle: its larger offset from the centre is the
/// integer nearest to sqrt(r² + r − 7/4 − s²), `s` being its smaller offset.
pub proof fn lemma_circle_outline_on_circle(cx: int, cy: int, r: int, w: int, h: int)
    requires
        r >= 1,
        0 <= w <= usize::MAX,
        0 <= h <= usize::MAX,
    ensures
        forall|k: int| 0 <= k < circle_outline(cx, cy, r, w, h).len() ==> {
            let p = #[trigger] circle_outline(cx, cy, r, w, h)[k];
            &&& p.0 < w && p.1 < h
            &&& on_circle(p.0 - cx, p.1 - cy, r)
        },
{
    assert(sq(2 * r - 1) == 4 * sq(r) - 4 * r + 1) by (nonlinear_arith);
    assert(sq(2 * r + 1) == 4 * sq(r) + 4 * r + 1) by (nonlinear_arith);
    assert(sq(1) == 1);
    assert(sq(0) == 0);
    assert(walk_state(0, r, 3 - 2 * r, r));
    lemma_walk_on_circle(cx, cy, 0, r, 3 - 2 * r, w, h, r);
}

/// Appends (cx + dx, cy + dy) when it falls on the framebuffer.
fn push_visible(out: &mut Vec<(usize, usize)>, cx: i64, cy: i64, dx: i64, dy: i64, w: usize, h: usize)
    requires
        -0x100_0000_0000 <= cx <= 0x100_0000_0000,
        -0x100_0000_0000 <= cy <= 0x100_0000_0000,
        -0x100_0000 <= dx <= 0x100_0000,
        -0x100_0000 <= dy <= 0x100_0000,
    ensures
        final(out)@ == old(out)@ + visible_pixels(cx as int, cy as int, seq![(dx as int, dy as int)], w as int, h as int),
{
    let px = cx + dx;
    let py = cy + dy;
    proof {
        let one = seq![(dx as int, dy as int)];
        assert(one.drop_last() =~= Seq::<(int, int)>::empty());
        assert(visible_pixels(cx as int, cy as int, one.drop_last(), w as int, h as int) =~= Seq::empty());
    }
    if px >= 0 && py >= 0 && (px as u64) < (w as u64) && (py as u64) < (h as u64) {
        out.push((px as usize, py as usize));
    }
}

/// Appends the visible reflections of (x, y) around (cx, cy).
fn push_octants(out: &mut Vec<(usize, usize)>, cx: i64, cy: i64, x: i64, y: i64, w: usize, h: usize)
    requires
        -0x100_0000_0000 <= cx <= 0x100_0000_0000,
        -0x100_0000_0000 <= cy <= 0x100_0000_0000,
        -0x100_0000 <= x <= 0x100_0000,
        -0x100_0000 <= y <= 0x100_0000,
    ensures
        final(out)@ == old(out)@ + visible_pixels(cx as int, cy as int, octant_offsets(x as int, y as int), w as int, h as int),
{
    let ghost o = old(out)@;
    push_visible(out, cx, cy, x, y, w, h);
    push_visible(out, cx, cy, y, x, w, h);
    push_visible(out, cx, cy, y, -x, w, h);
    push_visible(out, cx, cy, x, -y, w, h);
    push_visible(out, cx, cy, -x, -y, w, h);
    push_visible(out, cx, cy, -y, -x, w, h);
    push_visible(out, cx, cy, -y, x, w, h);
    push_visible(out, cx, cy, -x, y, w, h);
    proof {
        lemma_octant_pixels(cx as int, cy as int, x as int, y as int, w as int, h as int);
        let (ci, cj, xi, yi, wi, hi) = (cx as int, cy as int, x as int, y as int, w as int, h as int);
        assert(out@ =~= o + (visible_pixels(ci, cj, seq![(xi, yi)], wi, hi)
            + visible_pixels(ci, cj, seq![(yi, xi)], wi, hi) + visible_pixels(ci, cj, seq![(yi, -xi)], wi, hi)
            + visible_pixels(ci, cj, seq![(xi, -yi)], wi, hi) + visible_pixels(ci, cj, seq![(-xi, -yi)], wi, hi)
            + visible_pixels(ci, cj, seq![(-yi, -xi)], wi, hi) + visible_pixels(ci, cj, seq![(-yi, xi)], wi, hi)
            + visible_pixels(ci, cj, seq![(-xi, yi)], wi, hi)));
    }
}

/// The pixels of the outline of the circle of radius `r` around (cx, cy)
/// that fall on a `fb_w`×`fb_h` framebuffer, in drawing order (midpoint
/// walk, the eight reflections of each point).
pub fn circle_pixels(cx: isize, cy: isize, r: isize, fb_w: usize, fb_h: usize) -> (px: Vec<(usize, usize)>)
    requires
        circle_ok(cx, cy, r),
    ensures
        px@ == circle_outline(cx as int, cy as int, r as int, fb_w as int, fb_h as int),
{
    let cx = cx as i64;
    let cy = cy as i64;
    let r = r as i64;
    let mut out: Vec<(usize, usize)> = Vec::new();
    if r < 0 {
        assert(circle_outline(cx as int, cy as int, r as int, fb_w as int, fb_h as int) =~= Seq::empty());
        return out;
    }
    let mut x: i64 = 0;
    let mut y: i64 = r;
    let mut d: i64 = 3 - 2 * r;
    proof {
        assert(sq(2 * r - 1) == 4 * sq(r as int) - 4 * r + 1) by (nonlinear_arith);
        assert(sq(1) == 1);
    }
    while y >= x
        invariant
            -0x100_0000_0000 <= cx <= 0x100_0000_0000,
            -0x100_0000_0000 <= cy <= 0x100_0000_0000,
            0 <= r <= 0x10_0000,
            0 <= x <= r + 1,
            y <= r,
            x - 2 <= y,
            4 * d == 4 * sq(x + 1) + sq(2 * y - 1) - (4 * sq(r as int) + 4 * r - 7),
            out@ + circle_walk(cx as int, cy as int, x as int, y as int, d as int, fb_w as int, fb_h as int)
                == circle_outline(cx as int, cy as int, r as int, fb_w as int, fb_h as int),
        decreases y - x + 2,
    {
        proof {
            lemma_decision_bound(x as int, y as int, d as int, r as int);
        }
        let ghost before = out@;
        let ghost rest = circle_walk(cx as int, cy as int, x as int, y as int, d as int, fb_w as int, fb_h as int);
        push_octants(&mut out, cx, cy, x, y, fb_w, fb_h);
        let ghost x0 = x;
        let ghost y0 = y;
        let ghost d0 = d;
        x = x + 1;
        if d > 0 {
            y = y - 1;
            d = d + 2 * (x - y) + 1;
        } else {
            d = d + 2 * x + 1;
        }
        proof {
            assert(sq(x0 + 2) == sq(x0 + 1) + 2 * x0 + 3) by (nonlinear_arith);
            assert(sq(2 * y0 - 3) == sq(2 * y0 - 1) - 8 * y0 + 8) by (nonlinear_arith);
            assert(rest == visible_pixels(cx as int, cy as int, octant_offsets(x0 as int, y0 as int), fb_w as int, fb_h as int)
                + circle_walk(cx as int, cy as int, x as int, y as int, d as int, fb_w as int, fb_h as int));
            assert(out@ + circle_walk(cx as int, cy as int, x as int, y as int, d as int, fb_w as int, fb_h as int)
                =~= before + rest);
        }
    }
    proof {
        assert(circle_walk(cx as int, cy as int, x as int, y as int, d as int, fb_w as int, fb_h as int) =~= Seq::empty());
        assert(out@ =~= out@ + Seq::<(usize, usize)>::empty());
    }
    out
}

/// While the walk runs, the decision value stays well within 64 bits.
proof fn lemma_decision_bound(x: int, y: int, d: int, r: int)
    requires
        0 <= x <= y <= r <= 0x10_0000,
        4 * d == 4 * sq(x + 1) + sq(2 * y - 1) - (4 * sq(r) + 4 * r - 7),
    ensures
        -0x100_0000_0000_0000 < d < 0x100_0000_0000_0000,
{
    assert(0 <= sq(x + 1) <= sq(0x10_0001)) by (nonlinear_arith)
        requires
            0 <= x + 1 <= 0x10_0001,;
    assert(0 <= sq(2 * y - 1) <= sq(0x20_0001)) by (nonlinear_arith)
        requires
            -1 <= 2 * y - 1 <= 0x20_0001,;
    assert(0 <= sq(r) <= sq(0x10_0000)) by (nonlinear_arith)
        requires
            0 <= r <= 0x10_0000,;
}

/// The eight appended reflections are the visible octant points.
proof fn lemma_octant_pixels(cx: int, cy: int, x: int, y: int, w: int, h: int)
    ensures
        visible_pixels(cx, cy, octant_offsets(x, y), w, h) == visible_pixels(cx, cy, seq![(x, y)], w, h)
            + visible_pixels(cx, cy, seq![(y, x)], w, h) + visible_pixels(cx, cy, seq![(y, -x)], w, h)
            + visible_pixels(cx, cy, seq![(x, -y)], w, h) + visible_pixels(cx, cy, seq![(-x, -y)], w, h)
            + visible_pixels(cx, cy, seq![(-y, -x)], w, h) + visible_pixels(cx, cy, seq![(-y, x)], w, h)
            + visible_pixels(cx, cy, seq![(-x, y)], w, h),
{
    let s0 = seq![(x, y)];
    let s1 = seq![(y, x)];
    let s2 = seq![(y, -x)];
    let s3 = seq![(x, -y)];
    let s4 = seq![(-x, -y)];
    let s5 = seq![(-y, -x)];
    let s6 = seq![(-y, x)];
    let s7 = seq![(-x, y)];
    assert(octant_offsets(x, y) =~= s0 + s1 + s2 + s3 + s4 + s5 + s6 + s7);
    lemma_visible_append(cx, cy, s0, s1, w, h);
    lemma_visible_append(cx, cy, s0 + s1, s2, w, h);
    lemma_visible_append(cx, cy, s0 + s1 + s2, s3, w, h);
    lemma_visible_append(cx, cy, s0 + s1 + s2 + s3, s4, w, h);
    lemma_visible_append(cx, cy, s0 + s1 + s2 + s3 + s4, s5, w, h);
    lemma_visible_append(cx, cy, s0 + s1 + s2 + s3 + s4 + s5, s6, w, h);
    lemma_visible_append(cx, cy, s0 + s1 + s2 + s3 + s4 + s5 + s6, s7, w, h);
}

/// The visible points of two lists are those of each, in order.
proof fn lemma_visible_append(cx: int, cy: int, a: Seq<(int, int)>, b: Seq<(int, int)>, w: int, h: int)
    ensures
        visible_pixels(cx, cy, a + b, w, h) == visible_pixels(cx, cy, a, w, h) + visible_pixels(cx, cy, b, w, h),
    decreases b.len(),
{
    if b.len() == 0 {
        assert(a + b =~= a);
        assert(visible_pixels(cx, cy, a, w, h) + visible_pixels(cx, cy, b, w, h) =~= visible_pixels(cx, cy, a, w, h));
    } else {
        assert((a + b).drop_last() =~= a + b.drop_last());
        assert((a + b).last() == b.last());
        lemma_visible_append(cx, cy, a, b.drop_last(), w, h);
        let va = visible_pixels(cx, cy, a, w, h);
        let vb = visible_pixels(cx, cy, b.drop_last(), w, h);
        assert((va + vb).push((((cx + b.last().0) as usize), ((cy + b.last().1) as usize))) =~= va + vb.push(
            (((cx + b.last().0) as usize), ((cy + b.last().1) as usize)),
        ));
    }
}

} // verus!
