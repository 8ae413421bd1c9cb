//! EDID: the 128-byte block a monitor describes itself with.
use vstd::prelude::*;

verus! {

/// The fixed 8-byte pattern an EDID block starts with.
pub open spec fn edid_header() -> Seq<u8> {
    seq![0x00u8, 0xFFu8, 0xFFu8, 0xFFu8, 0xFFu8, 0xFFu8, 0xFFu8, 0x00u8]
}

/// Sum of the bytes of `d`.
pub open spec fn byte_sum(d: Seq<u8>) -> int
    decreases d.len(),
{
    if d.len() == 0 {
        0
    } else {
        byte_sum(d.drop_last()) + d.last()
    }
}

/// An EDID block is valid when it starts with the header and its bytes sum
/// to 0 modulo 256.
pub open spec fn edid_valid(d: Seq<u8>) -> bool {
    d.subrange(0, 8) == edid_header() && byte_sum(d) % 256 == 0
}

/// A detailed timing descriptor (18 bytes).
#[derive(Debug, Clone, Copy, PartialEq, Eq, Structural)]
pub struct DetailedTiming {
    /// kHz
    pub pixel_clock: u32,
    pub h_active: u16,
    pub h_blank: u16,
    pub v_active: u16,
    pub v_blank: u16,
    pub h_sync_offset: u16,
    pub h_sync_pulse: u16,
    pub v_sync_offset: u8,
    pub v_sync_pulse: u8,
    /// mm
    pub h_size: u16,
    /// mm
    pub v_size: u16,
    pub h_border: u16,
    pub v_border: u16,
    pub interlaced: bool,
    pub stereo: u8,
    pub sync_type: u8,
}

/// The little-endian 16-bit word at `off`.
pub open spec fn le16(d: Seq<u8>, off: int) -> u16 {
    (d[off] as u16 | ((d[off + 1] as u16) << 8u16)) as u16
}

/// A 12-bit field: a low byte and a high nibble.
pub open spec fn lo_hi(lo: u8, hi: u8) -> u16 {
    (lo as u16 | ((hi as u16) << 8u16)) as u16
}

/// The detailed timing descriptor at `off`, or None for a monitor descriptor
/// (pixel clock below 10, in units of 10 kHz), a block that does not fit, or
/// a zero active area.
pub open spec fn detailed_timing_at(d: Seq<u8>, off: int) -> Option<DetailedTiming> {
    if off + 18 > 128 || le16(d, off) < 10 {
        None
    } else {
        let h_active = lo_hi(d[off + 2], (d[off + 4] >> 4u8) & 0x0Fu8);
        let v_active = lo_hi(d[off + 5], (d[off + 7] >> 4u8) & 0x0Fu8);
        if h_active == 0 || v_active == 0 {
            None
        } else {
            let flags = d[off + 17];
            Some(DetailedTiming {
                pixel_clock: (le16(d, off) * 10) as u32,
                h_active,
                h_blank: lo_hi(d[off + 3], d[off + 4] & 0x0Fu8),
                v_active,
                v_blank: lo_hi(d[off + 6], d[off + 7] & 0x0Fu8),
                h_sync_offset: (d[off + 8] as u16 | ((((d[off + 10] >> 4u8) & 0x0Fu8) as u16 & 0x03u16) << 8u16)) as u16,
                h_sync_pulse: (d[off + 9] as u16 | (((d[off + 10] & 0x0Fu8) as u16 & 0x03u16) << 8u16)) as u16,
                v_sync_offset: (((d[off + 11] >> 4u8) & 0x0Fu8) | (d[off + 10] & 0x0Cu8)) as u8,
                v_sync_pulse: ((d[off + 11] & 0x0Fu8) | ((d[off + 10] >> 2u8) & 0x0Cu8)) as u8,
                h_size: lo_hi(d[off + 12], (d[off + 14] >> 4u8) & 0x0Fu8),
                v_size: lo_hi(d[off + 13], d[off + 14] & 0x0Fu8),
                h_border: d[off + 15] as u16,
                v_border: d[off + 16] as u16,
                interlaced: flags & 0x80u8 != 0,
                stereo: (flags >> 4u8) & 0x07u8,
                sync_type: (flags >> 2u8) & 0x03u8,
            })
        }
    }
}

proof fn lemma_flag_fields(f: u8)
    by (bit_vector)
    ensures
        (f & 0x80u8 != 0) == (f >= 128),
        (f >> 4u8) & 0x07u8 == f / 16 % 8,
        (f >> 2u8) & 0x03u8 == f / 4 % 4,
{
}

proof fn lemma_word_fields(lo: u8, hi: u8, b: u8)
    by (bit_vector)
    ensures
        lo_hi(lo, (hi >> 4u8) & 0x0Fu8) == lo + 256 * (hi / 16),
        lo_hi(lo, hi & 0x0Fu8) == lo + 256 * (hi % 16),
        (lo as u16 | ((b as u16) << 8u16)) as u16 == lo + 256 * b,
{
}

/// The fields of a detailed timing descriptor at `off`, by the EDID layout.
/// A 12-bit field is its low byte plus 256 times a nibble of a shared byte:
/// the upper nibble for the first field of a pair (horizontal and vertical
/// active at bytes 4 and 7, the horizontal image size at byte 14), the lower
/// nibble for the second (the blankings, the vertical image size). The pixel
/// clock is the little-endian word at 0, in 10 kHz units; the borders are
/// bytes 15 and 16, and byte 17 holds the interlace bit (7), the stereo
/// mode (bits 6-4) and the sync type (bits 3-2). A descriptor is
/// read exactly when it fits in the block, its clock is at least 10 and
/// both active sizes are nonzero.
pub proof fn lemma_detailed_timing_layout(d: Seq<u8>, off: int)
    requires
        d.len() == 128,
        0 <= off,
    ensures
        (detailed_timing_at(d, off) is Some) == (off + 18 <= 128 && d[off] + 256 * d[off + 1] >= 10
            && d[off + 2] + 256 * (d[off + 4] / 16) != 0 && d[off + 5] + 256 * (d[off + 7] / 16) != 0),
        detailed_timing_at(d, off) matches Some(t) ==> {
            &&& t.pixel_clock == 10 * (d[off] + 256 * d[off + 1])
            &&& t.h_active == d[off + 2] + 256 * (d[off + 4] / 16)
            &&& t.h_blank == d[off + 3] + 256 * (d[off + 4] % 16)
            &&& t.v_active == d[off + 5] + 256 * (d[off + 7] / 16)
            &&& t.v_blank == d[off + 6] + 256 * (d[off + 7] % 16)
            &&& t.h_size == d[off + 12] + 256 * (d[off + 14] / 16)
            &&& t.v_size == d[off + 13] + 256 * (d[off + 14] % 16)
            &&& t.h_border == d[off + 15]
            &&& t.v_border == d[off + 16]
            &&& t.interlaced == (d[off + 17] >= 128)
            &&& t.stereo == d[off + 17] / 16 % 8
            &&& t.sync_type == d[off + 17] / 4 % 4
        },
{
    if off + 18 <= 128 {
        lemma_word_fields(d[off], d[off], d[off + 1]);
        lemma_word_fields(d[off + 2], d[off + 4], 0);
        lemma_word_fields(d[off + 3], d[off + 4], 0);
        lemma_word_fields(d[off + 5], d[off + 7], 0);
        lemma_word_fields(d[off + 6], d[off + 7], 0);
        lemma_word_fields(d[off + 12], d[off + 14], 0);
        lemma_word_fields(d[off + 13], d[off + 14], 0);
        lemma_flag_fields(d[off + 17]);
    }
}

/// Parses the detailed timing descriptor at `offset`.
pub fn parse_detailed_timing(data: &[u8; 128], offset: usize) -> (r: Option<DetailedTiming>)
    ensures
        r == detailed_timing_at(data@, offset as int),
{
    if offset > 110 {
        return None;
    }
    let pixel_clock: u16 = data[offset] as u16 | ((data[offset + 1] as u16) << 8u16);
    if pixel_clock < 10 {
        return None;
    }
    let h_active_lo = data[offset + 2] as u16;
    let h_blank_lo = data[offset + 3] as u16;
    let h_active_hi = ((data[offset + 4] >> 4u8) & 0x0F) as u16;
    let h_blank_hi = (data[offset + 4] & 0x0F) as u16;
    let v_active_lo = data[offset + 5] as u16;
    let v_blank_lo = data[offset + 6] as u16;
    let v_active_hi = ((data[offset + 7] >> 4u8) & 0x0F) as u16;
    let v_blank_hi = (data[offset + 7] & 0x0F) as u16;
    let h_sync_off_lo = data[offset + 8] as u16;
    let h_sync_pulse_lo = data[offset + 9] as u16;
    let vsync_off_hi = ((data[offset + 10] >> 4u8) & 0x0F) as u16;
    let vsync_pulse_hi = (data[offset + 10] & 0x0F) as u16;

    let h_sync_off: u16 = h_sync_off_lo | ((vsync_off_hi & 0x03) << 8u16);
    let h_sync_pulse: u16 = h_sync_pulse_lo | ((vsync_pulse_hi & 0x03) << 8u16);
    let v_sync_off: u8 = ((data[offset + 11] >> 4u8) & 0x0F) | (data[offset + 10] & 0x0C);
    let v_sync_pulse: u8 = (data[offset + 11] & 0x0F) | ((data[offset + 10] >> 2u8) & 0x0C);

    let h_size_lo = data[offset + 12] as u16;
    let v_size_lo = data[offset + 13] as u16;
    let h_size_hi = ((data[offset + 14] >> 4u8) & 0x0F) as u16;
    let v_size_hi = (data[offset + 14] & 0x0F) as u16;
    let h_border = data[offset + 15] as u16;
    let v_border = data[offset + 16] as u16;

    let flags = data[offset + 17];
    let interlaced = (flags & 0x80) != 0;
    let stereo = (flags >> 4u8) & 0x07;

    let h_active: u16 = h_active_lo | (h_active_hi << 8u16);
    let v_active: u16 = v_active_lo | (v_active_hi << 8u16);
    let h_blank: u16 = h_blank_lo | (h_blank_hi << 8u16);
    let v_blank: u16 = v_blank_lo | (v_blank_hi << 8u16);
    let h_size: u16 = h_size_lo | (h_size_hi << 8u16);
    let v_size: u16 = v_size_lo | (v_size_hi << 8u16);

    if h_active == 0 || v_active == 0 {
        return None;
    }
    let sync_type = (flags >> 2u8) & 0x03;
    Some(DetailedTiming {
        pixel_clock: pixel_clock as u32 * 10,
        h_active,
        h_blank,
        v_active,
        v_blank,
        h_sync_offset: h_sync_off,
        h_sync_pulse,
        v_sync_offset: v_sync_off,
        v_sync_pulse,
        h_size,
        v_size,
        h_border,
        v_border,
        interlaced,
        stereo,
        sync_type,
    })
}

/// A display descriptor: a descriptor block that is not a timing.
#[derive(Debug, Clone, Copy)]
pub enum MonitorDesc {
    Serial([u8; 13]),
    Name([u8; 13]),
    RangeLimits { min_v: u8, max_v: u8, min_h: u8, max_h: u8, max_clock: u8 },
    Text([u8; 13]),
    Timing(&'static str),
}

/// `desc` is what the descriptor block at `off` holds, by its tag byte.
pub open spec fn monitor_desc_matches(desc: MonitorDesc, d: Seq<u8>, off: int) -> bool {
    let payload = d.subrange(off + 5, off + 18);
    let tag = d[off + 3];
    if tag == 0xFF {
        desc matches MonitorDesc::Serial(a) && a@ == payload
    } else if tag == 0xFC {
        desc matches MonitorDesc::Name(a) && a@ == payload
    } else if tag == 0xFD {
        desc == MonitorDesc::RangeLimits {
            min_v: payload[0],
            max_v: payload[1],
            min_h: payload[2],
            max_h: payload[3],
            max_clock: payload[4],
        }
    } else if tag == 0xFE {
        desc matches MonitorDesc::Text(a) && a@ == payload
    } else {
        desc matches MonitorDesc::Timing(s) && s@ == "unknown descriptor type"@
    }
}

/// There is a display descriptor at `off`: the block fits and its first
/// word is zero.
pub open spec fn is_monitor_desc(d: Seq<u8>, off: int) -> bool {
    off + 18 <= 128 && le16(d, off) == 0
}

/// The 13 bytes of `data` from `start`.
fn take13(data: &[u8; 128], start: usize) -> (r: [u8; 13])
    requires
        start + 13 <= 128,
    ensures
        r@ == data@.subrange(start as int, start + 13),
{
    let r = [
        data[start], data[start + 1], data[start + 2], data[start + 3], data[start + 4],
        data[start + 5], data[start + 6], data[start + 7], data[start + 8], data[start + 9],
        data[start + 10], data[start + 11], data[start + 12],
    ];
    assert(r@ =~= data@.subrange(start as int, start + 13));
    r
}

/// Parses the display descriptor at `offset`, with its tag byte.
pub fn parse_monitor_descriptor(data: &[u8; 128], offset: usize) -> (r: Option<(MonitorDesc, u8)>)
    ensures
        !is_monitor_desc(data@, offset as int) ==> r is None,
        is_monitor_desc(data@, offset as int) ==> (r matches Some((desc, tag))
            && tag == data@[offset + 3] && monitor_desc_matches(desc, data@, offset as int)),
{
    if offset > 110 {
        return None;
    }
    let flag: u16 = data[offset] as u16 | ((data[offset + 1] as u16) << 8u16);
    if flag != 0 {
        return None;
    }
    let tag = data[offset + 3];
    if tag == 0xFF {
        Some((MonitorDesc::Serial(take13(data, offset + 5)), tag))
    } else if tag == 0xFC {
        Some((MonitorDesc::Name(take13(data, offset + 5)), tag))
    } else if tag == 0xFD {
        let rng = take13(data, offset + 5);
        Some((MonitorDesc::RangeLimits {
            min_v: rng[0],
            max_v: rng[1],
            min_h: rng[2],
            max_h: rng[3],
            max_clock: rng[4],
        }, tag))
    } else if tag == 0xFE {
        Some((MonitorDesc::Text(take13(data, offset + 5)), tag))
    } else {
        Some((MonitorDesc::Timing("unknown descriptor type"), tag))
    }
}

/// The resolution a standard timing entry names, or None for an unused
/// entry (0x01 0x01) or one below 320 x 200. The width is (byte1 + 31) * 8;
/// bits 6-5 of byte2 give the aspect ratio: 16:10, 4:3, 16:9, and 5:4 taken
/// as 16:9.
pub open spec fn standard_timing(byte1: u8, byte2: u8) -> Option<(u16, u16)> {
    let h = (byte1 + 31) * 8;
    let ratio = (byte2 >> 5u8) & 0x03u8;
    let v = if ratio == 0 {
        h * 10 / 16
    } else if ratio == 1 {
        h * 3 / 4
    } else {
        h * 9 / 16
    };
    if byte1 == 0x01 && byte2 == 0x01 {
        None
    } else if h < 320 || v < 200 {
        None
    } else {
        Some((h as u16, v as u16))
    }
}

/// Parses a standard timing entry.
pub fn parse_standard_timing(byte1: u8, byte2: u8) -> (r: Option<(u16, u16)>)
    ensures
        r == standard_timing(byte1, byte2),
{
    if byte1 == 0x01 && byte2 == 0x01 {
        return None;
    }
    let h_active: u16 = (byte1 as u16 + 31) * 8;
    let ratio_bits = (byte2 >> 5u8) & 0x03;
    let v_active: u16 = if ratio_bits == 0 {
        h_active * 10 / 16
    } else if ratio_bits == 1 {
        h_active * 3 / 4
    } else {
        h_active * 9 / 16
    };
    if h_active < 320 || v_active < 200 {
        return None;
    }
    Some((h_active, v_active))
}

/// The two letters of the manufacturer ID the block names: the big-endian
/// word at 8 packs letters in 5-bit fields, 1 for 'A'; the first letter is
/// bits 0-4 and the second bits 5-9.
pub open spec fn pnp_letters(d: Seq<u8>) -> Seq<u8> {
    let raw = d[8] * 256 + d[9];
    seq![(raw % 32 + 64) as u8, (raw / 32 % 32 + 64) as u8]
}

/// The resolutions of the first `n` standard timing entries (at 38, two
/// bytes each) that name one.
pub open spec fn standard_timings_upto(d: Seq<u8>, n: int) -> Seq<(u16, u16)>
    decreases n,
{
    if n <= 0 {
        Seq::empty()
    } else {
        let prev = standard_timings_upto(d, n - 1);
        match standard_timing(d[38 + 2 * (n - 1)], d[39 + 2 * (n - 1)]) {
            Some(t) => prev.push(t),
            None => prev,
        }
    }
}

/// The timings among the first `n` descriptor blocks (at 54, 18 bytes each).
pub open spec fn detailed_timings_upto(d: Seq<u8>, n: int) -> Seq<DetailedTiming>
    decreases n,
{
    if n <= 0 {
        Seq::empty()
    } else {
        let prev = detailed_timings_upto(d, n - 1);
        match detailed_timing_at(d, 54 + 18 * (n - 1)) {
            Some(t) => prev.push(t),
            None => prev,
        }
    }
}

/// The 13-byte payload of the last display descriptor with tag `tag` among
/// the first `n` descriptor blocks.
pub open spec fn last_desc_upto(d: Seq<u8>, n: int, tag: u8) -> Option<Seq<u8>>
    decreases n,
{
    if n <= 0 {
        None
    } else {
        let off = 54 + 18 * (n - 1);
        if detailed_timing_at(d, off) is None && is_monitor_desc(d, off) && d[off + 3] == tag {
            Some(d.subrange(off + 5, off + 18))
        } else {
            last_desc_upto(d, n - 1, tag)
        }
    }
}

/// An optional 13-byte field as a sequence.
pub open spec fn opt13(o: Option<[u8; 13]>) -> Option<Seq<u8>> {
    match o {
        Some(a) => Some(a@),
        None => None,
    }
}

/// What an EDID block says about its monitor.
#[derive(Debug, Clone)]
pub struct EdidInfo {
    pub valid: bool,
    /// The first two letters of the manufacturer ID.
    pub manufacturer: [u8; 2],
    pub product_code: u16,
    pub serial: u32,
    pub week: u8,
    pub year: u16,
    pub version: u8,
    pub revision: u8,
    pub digital: bool,
    pub width_cm: u8,
    pub height_cm: u8,
    /// Display gamma times 100 (gamma = this / 100).
    pub gamma_hundredths: u16,
    pub detailed_timings: Vec<DetailedTiming>,
    pub monitor_name: Option<[u8; 13]>,
    pub monitor_serial: Option<[u8; 13]>,
    /// (h_active, v_active)
    pub standard_timings: Vec<(u16, u16)>,
    pub preferred_timing: Option<DetailedTiming>,
}

/// The value of a block that could not be parsed: all fields zero or empty.
pub open spec fn edid_blank(e: EdidInfo) -> bool {
    &&& !e.valid
    &&& e.manufacturer@ == seq![0u8, 0u8]
    &&& e.product_code == 0 && e.serial == 0 && e.week == 0 && e.year == 0
    &&& e.version == 0 && e.revision == 0 && !e.digital
    &&& e.width_cm == 0 && e.height_cm == 0 && e.gamma_hundredths == 0
    &&& e.detailed_timings@.len() == 0 && e.standard_timings@.len() == 0
    &&& e.monitor_name is None && e.monitor_serial is None && e.preferred_timing is None
}

/// The little-endian 32-bit word at `off`.
pub open spec fn le32(d: Seq<u8>, off: int) -> int {
    d[off] + 256 * d[off + 1] + 65536 * d[off + 2] + 16777216 * d[off + 3]
}

/// The fixed-position fields `parse_edid` reads out of a valid block `d`.
pub open spec fn edid_scalars(e: EdidInfo, d: Seq<u8>) -> bool {
    &&& e.valid
    &&& e.manufacturer@ == pnp_letters(d)
    &&& e.product_code == le16(d, 10)
    &&& e.serial == le32(d, 12)
    &&& e.week == d[16]
    &&& e.year == 1990 + d[17]
    &&& e.version == d[18]
    &&& e.revision == d[19]
    &&& e.digital == (d[20] & 0x80u8 != 0)
    &&& e.width_cm == d[21]
    &&& e.height_cm == d[22]
    &&& e.gamma_hundredths == d[23] + 100
}

/// What `parse_edid` reads out of a valid block `d`.
pub open spec fn edid_fields(e: EdidInfo, d: Seq<u8>) -> bool {
    let timings = detailed_timings_upto(d, 4);
    &&& edid_scalars(e, d)
    &&& e.standard_timings@ == standard_timings_upto(d, 8)
    &&& e.detailed_timings@ == timings
    &&& e.preferred_timing == (if timings.len() > 0 { Some(timings[0]) } else { None })
    &&& opt13(e.monitor_name) == last_desc_upto(d, 4, 0xFCu8)
    &&& opt13(e.monitor_serial) == last_desc_upto(d, 4, 0xFFu8)
}

impl EdidInfo {
    /// An empty, invalid record.
    pub fn new() -> (e: Self)
        ensures
            edid_blank(e),
    {
        let e = EdidInfo {
            valid: false,
            manufacturer: [0u8; 2],
            product_code: 0,
            serial: 0,
            week: 0,
            year: 0,
            version: 0,
            revision: 0,
            digital: false,
            width_cm: 0,
            height_cm: 0,
            gamma_hundredths: 0,
            detailed_timings: Vec::new(),
            monitor_name: None,
            monitor_serial: None,
            standard_timings: Vec::new(),
            preferred_timing: None,
        };
        assert(e.manufacturer@ =~= seq![0u8, 0u8]);
        e
    }

    /// The first two letters of the manufacturer ID in `data`.
    pub fn pnp_id(data: &[u8; 128]) -> (id: [u8; 2])
        ensures
            id@ == pnp_letters(data@),
    {
        let raw: u16 = data[8] as u16 * 256 + data[9] as u16;
        let c1 = (raw % 32) as u8 + 64;
        let c2 = ((raw / 32) % 32) as u8 + 64;
        let id = [c1, c2];
        assert(id@ =~= pnp_letters(data@));
        id
    }
}

/// Whether `data` starts with the EDID header.
fn header_matches(data: &[u8; 128]) -> (b: bool)
    ensures
        b == (data@.subrange(0, 8) == edid_header()),
{
    let b = data[0] == 0x00 && data[1] == 0xFF && data[2] == 0xFF && data[3] == 0xFF
        && data[4] == 0xFF && data[5] == 0xFF && data[6] == 0xFF && data[7] == 0x00;
    if b {
        assert(data@.subrange(0, 8) =~= edid_header());
    } else {
        assert(data@.subrange(0, 8) != edid_header()) by {
            if data@.subrange(0, 8) == edid_header() {
                assert(data@[0] == data@.subrange(0, 8)[0]);
                assert(data@[1] == data@.subrange(0, 8)[1]);
                assert(data@[2] == data@.subrange(0, 8)[2]);
                assert(data@[3] == data@.subrange(0, 8)[3]);
                assert(data@[4] == data@.subrange(0, 8)[4]);
                assert(data@[5] == data@.subrange(0, 8)[5]);
                assert(data@[6] == data@.subrange(0, 8)[6]);
                assert(data@[7] == data@.subrange(0, 8)[7]);
            }
        }
    }
    b
}

/// Whether the 128 bytes of `data` sum to 0 modulo 256.
fn checksum_zero(data: &[u8; 128]) -> (b: bool)
    ensures
        b == (byte_sum(data@) % 256 == 0),
{
    let mut sum: u32 = 0;
    let mut i: usize = 0;
    while i < 128
        invariant
            i <= 128,
            data@.len() == 128,
            sum == byte_sum(data@.take(i as int)),
            sum <= 255 * i,
        decreases 128 - i,
    {
        assert(data@.take(i + 1).drop_last() =~= data@.take(i as int));
        sum = sum + data[i] as u32;
        i = i + 1;
    }
    assert(data@.take(128) =~= data@);
    sum % 256 == 0
}

/// Parses a 128-byte EDID block. A block without the header or whose bytes
/// do not sum to 0 modulo 256 gives an empty, invalid record.
pub fn parse_edid(data: &[u8; 128]) -> (info: EdidInfo)
    ensures
        info.valid == edid_valid(data@),
        !info.valid ==> edid_blank(info),
        info.valid ==> edid_fields(info, data@),
{
    let mut info = EdidInfo::new();
    if !header_matches(data) {
        return info;
    }
    if !checksum_zero(data) {
        return info;
    }
    let ghost d = data@;
    info.valid = true;
    info.manufacturer = EdidInfo::pnp_id(data);
    info.product_code = data[10] as u16 | ((data[11] as u16) << 8u16);
    info.serial = data[12] as u32 + 256 * data[13] as u32 + 65536 * data[14] as u32 + 16777216 * data[15] as u32;
    info.week = data[16];
    info.year = 1990 + data[17] as u16;
    info.version = data[18];
    info.revision = data[19];
    info.digital = (data[20] & 0x80) != 0;
    info.width_cm = data[21];
    info.height_cm = data[22];
    info.gamma_hundredths = data[23] as u16 + 100;

    let mut i: usize = 0;
    while i < 8
        invariant
            i <= 8,
            d == data@,
            info.standard_timings@ == standard_timings_upto(d, i as int),
            edid_scalars(info, d),
            info.detailed_timings@.len() == 0,
            info.preferred_timing is None,
            info.monitor_name is None,
            info.monitor_serial is None,
        decreases 8 - i,
    {
        let off = 38 + i * 2;
        match parse_standard_timing(data[off], data[off + 1]) {
            Some(t) => info.standard_timings.push(t),
            None => {},
        }
        i = i + 1;
    }

    let mut j: usize = 0;
    while j < 4
        invariant
            j <= 4,
            d == data@,
            info.detailed_timings@ == detailed_timings_upto(d, j as int),
            info.preferred_timing == (if detailed_timings_upto(d, j as int).len() > 0 {
                Some(detailed_timings_upto(d, j as int)[0])
            } else {
                None
            }),
            opt13(info.monitor_name) == last_desc_upto(d, j as int, 0xFCu8),
            opt13(info.monitor_serial) == last_desc_upto(d, j as int, 0xFFu8),
            edid_scalars(info, d),
            info.standard_timings@ == standard_timings_upto(d, 8),
        decreases 4 - j,
    {
        let off = 54 + j * 18;
        proof {
            lemma_detailed_prefix(d, j as int);
        }
        match parse_detailed_timing(data, off) {
            Some(timing) => {
                if info.preferred_timing.is_none() {
                    info.preferred_timing = Some(timing);
                }
                info.detailed_timings.push(timing);
            },
            None => {
                match parse_monitor_descriptor(data, off) {
                    Some((desc, _tag)) => {
                        match desc {
                            MonitorDesc::Name(name) => {
                                info.monitor_name = Some(name);
                            },
                            MonitorDesc::Serial(ser) => {
                                info.monitor_serial = Some(ser);
                            },
                            _ => {},
                        }
                    },
                    None => {},
                }
            },
        }
        j = j + 1;
    }
    info
}

proof fn lemma_detailed_prefix(d: Seq<u8>, n: int)
    requires
        0 <= n,
    ensures
        detailed_timings_upto(d, n).len() > 0 ==> detailed_timings_upto(d, n + 1)[0] == detailed_timings_upto(d, n)[0],
        detailed_timings_upto(d, n).len() <= n,
    decreases n,
{
    if n > 0 {
        lemma_detailed_prefix(d, n - 1);
    }
}

} // verus!
