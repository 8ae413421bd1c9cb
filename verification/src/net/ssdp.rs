//! SSDP (UPnP discovery): reading the location, search target and unique
//! service name out of a search response.
use vstd::prelude::*;
use vstd::string::StrSliceExecFns;
use crate::cros_ec::{lossy_string, utf8_lossy};

verus! {

/// The SSDP multicast group.
pub const SSDP_MULTICAST_ADDR: &'static str = "239.255.255.250";
/// The SSDP port.
pub const SSDP_PORT: u16 = 1900;

/// A service found by discovery.
#[derive(Debug, Clone)]
pub struct SsdpService {
    pub location: String,
    /// Search target.
    pub st: String,
    /// Unique service name.
    pub usn: String,
}

/// The upper-case form of a text as `str::to_uppercase` gives it (Unicode
/// case mapping).
pub uninterp spec fn uppercase(s: Seq<char>) -> Seq<char>;

/// Calls `str::to_uppercase`: the upper-case form of `s`.
#[verifier::external_body]
fn to_uppercase(s: &str) -> (r: String)
    ensures
        r@ == uppercase(s@),
{
    s.to_uppercase()
}

/// `char::is_whitespace`: the characters with the Unicode White_Space
/// property.
pub open spec fn is_space(c: char) -> bool {
    let v = c as u32;
    ||| 0x09 <= v <= 0x0D
    ||| v == 0x20
    ||| v == 0x85
    ||| v == 0xA0
    ||| v == 0x1680
    ||| 0x2000 <= v <= 0x200A
    ||| v == 0x2028
    ||| v == 0x2029
    ||| v == 0x202F
    ||| v == 0x205F
    ||| v == 0x3000
}

/// Index of the first non-space character at or after `i` (or the length).
pub open spec fn first_non_space(s: Seq<char>, i: int) -> int
    decreases s.len() - i,
{
    if i < 0 || i >= s.len() {
        s.len() as int
    } else if !is_space(s[i]) {
        i
    } else {
        first_non_space(s, i + 1)
    }
}

/// One past the last non-space character before `j` (or 0).
pub open spec fn non_space_end(s: Seq<char>, j: int) -> int
    decreases j,
{
    if j <= 0 || j > s.len() {
        0
    } else if !is_space(s[j - 1]) {
        j
    } else {
        non_space_end(s, j - 1)
    }
}

/// `str::trim`: the text without its leading and trailing white space.
pub open spec fn trim(s: Seq<char>) -> Seq<char> {
    let a = first_non_space(s, 0);
    let b = non_space_end(s, s.len() as int);
    if a < b { s.subrange(a, b) } else { Seq::empty() }
}

/// Bytes of a character's UTF-8 encoding.
pub open spec fn utf8_width(c: char) -> int {
    let v = c as u32;
    if v < 0x80 { 1 } else if v < 0x800 { 2 } else if v < 0x10000 { 3 } else { 4 }
}

/// Byte offset of character `k` of `s`.
pub open spec fn byte_offset(s: Seq<char>, k: int) -> int
    decreases k,
{
    if k <= 0 || k > s.len() { 0 } else { byte_offset(s, k - 1) + utf8_width(s[k - 1]) }
}

/// Byte `n` of `s` starts a character (or is its end).
pub open spec fn is_boundary(s: Seq<char>, n: int) -> bool {
    exists|k: int| 0 <= k <= s.len() && byte_offset(s, k) == n
}

/// `&s[n..]`: the text from byte `n` on.
pub open spec fn from_byte(s: Seq<char>, n: int) -> Seq<char> {
    s.skip(choose|k: int| 0 <= k <= s.len() && byte_offset(s, k) == n)
}

/// `p` is a prefix of `u`.
pub open spec fn starts(u: Seq<char>, p: Seq<char>) -> bool {
    p.len() <= u.len() && u.take(p.len() as int) == p
}

/// Location, search target and service name read so far.
pub type SsdpFields = (Seq<char>, Seq<char>, Seq<char>);

/// One header line: trimmed, and matched case-insensitively against the
/// three header names; the value after the name, trimmed, replaces that field.
pub open spec fn apply_line(f: SsdpFields, line: Seq<char>) -> SsdpFields {
    let t = trim(line);
    let u = uppercase(t);
    if starts(u, "LOCATION:"@) {
        (trim(from_byte(t, 9)), f.1, f.2)
    } else if starts(u, "ST:"@) {
        (f.0, trim(from_byte(t, 3)), f.2)
    } else if starts(u, "USN:"@) {
        (f.0, f.1, trim(from_byte(t, 4)))
    } else {
        f
    }
}

/// The slice after a matched header name starts at a character boundary (the
/// slice panics otherwise).
pub open spec fn line_ok(line: Seq<char>) -> bool {
    let t = trim(line);
    let u = uppercase(t);
    if starts(u, "LOCATION:"@) {
        is_boundary(t, 9)
    } else if starts(u, "ST:"@) {
        is_boundary(t, 3)
    } else if starts(u, "USN:"@) {
        is_boundary(t, 4)
    } else {
        true
    }
}

/// Start of the line holding position `k`: just after the last line feed
/// before it.
pub open spec fn line_start(s: Seq<char>, k: int) -> int
    decreases k,
{
    if k <= 0 || k > s.len() {
        0
    } else if s[k - 1] == '\n' {
        k
    } else {
        line_start(s, k - 1)
    }
}

/// The fields after the complete lines among the first `k` characters.
pub open spec fn fields_upto(s: Seq<char>, k: int) -> SsdpFields
    decreases k,
{
    if k <= 0 || k > s.len() {
        (Seq::empty(), Seq::empty(), Seq::empty())
    } else if s[k - 1] == '\n' {
        apply_line(fields_upto(s, k - 1), s.subrange(line_start(s, k - 1), k - 1))
    } else {
        fields_upto(s, k - 1)
    }
}

/// Every complete line among the first `k` characters is `line_ok`.
pub open spec fn lines_ok_upto(s: Seq<char>, k: int) -> bool
    decreases k,
{
    if k <= 0 || k > s.len() {
        true
    } else if s[k - 1] == '\n' {
        lines_ok_upto(s, k - 1) && line_ok(s.subrange(line_start(s, k - 1), k - 1))
    } else {
        lines_ok_upto(s, k - 1)
    }
}

/// The last line, when the text does not end with a line feed.
pub open spec fn last_line(s: Seq<char>) -> Seq<char> {
    s.subrange(line_start(s, s.len() as int), s.len() as int)
}

/// The fields of a whole response (`str::lines`: an empty last line is not
/// a line).
pub open spec fn ssdp_fields(s: Seq<char>) -> SsdpFields {
    if last_line(s).len() == 0 {
        fields_upto(s, s.len() as int)
    } else {
        apply_line(fields_upto(s, s.len() as int), last_line(s))
    }
}

/// The response text the parser reads without panicking.
pub open spec fn ssdp_text_ok(s: Seq<char>) -> bool {
    lines_ok_upto(s, s.len() as int) && (last_line(s).len() > 0 ==> line_ok(last_line(s)))
}

/// The status line every accepted response begins with.
pub open spec fn ok_status(s: Seq<char>) -> bool {
    starts(s, "HTTP/1.1 200 OK"@)
}

/// The service a response names: for a `200 OK` response with a location
/// and a search target.
pub open spec fn ssdp_service(packet: Seq<u8>) -> Option<SsdpFields> {
    let s = utf8_lossy(packet);
    let f = ssdp_fields(s);
    if ok_status(s) && f.0.len() > 0 && f.1.len() > 0 { Some(f) } else { None }
}

fn is_space_exec(c: char) -> (r: bool)
    ensures
        r == is_space(c),
{
    let v = c as u32;
    (0x09 <= v && v <= 0x0D) || v == 0x20 || v == 0x85 || v == 0xA0 || v == 0x1680 || (0x2000 <= v && v <= 0x200A)
        || v == 0x2028 || v == 0x2029 || v == 0x202F || v == 0x205F || v == 0x3000
}

fn trim_str(s: &str) -> (t: &str)
    ensures
        t@ == trim(s@),
{
    let n = s.unicode_len();
    let mut a: usize = 0;
    while a < n && is_space_exec(s.get_char(a))
        invariant
            n == s@.len(),
            a <= n,
            first_non_space(s@, 0) == first_non_space(s@, a as int),
        decreases n - a,
    {
        a = a + 1;
    }
    let mut b: usize = n;
    while b > 0 && is_space_exec(s.get_char(b - 1))
        invariant
            n == s@.len(),
            b <= n,
            non_space_end(s@, n as int) == non_space_end(s@, b as int),
        decreases b,
    {
        b = b - 1;
    }
    if a < b {
        s.substring_char(a, b)
    } else {
        proof {
            reveal_strlit("");
        }
        ""
    }
}

pub(crate) fn starts_with_chars(u: &str, p: &str) -> (r: bool)
    ensures
        r == starts(u@, p@),
{
    let un = u.unicode_len();
    let pn = p.unicode_len();
    if pn > un {
        return false;
    }
    let mut i: usize = 0;
    while i < pn
        invariant
            un == u@.len(),
            pn == p@.len(),
            pn <= un,
            i <= pn,
            forall|k: int| 0 <= k < i ==> u@[k] == p@[k],
        decreases pn - i,
    {
        if u.get_char(i) != p.get_char(i) {
            assert(u@.take(pn as int)[i as int] != p@[i as int]);
            return false;
        }
        i = i + 1;
    }
    assert(u@.take(pn as int) =~= p@);
    true
}

fn utf8_width_exec(c: char) -> (w: usize)
    ensures
        w == utf8_width(c),
{
    let v = c as u32;
    if v < 0x80 {
        1
    } else if v < 0x800 {
        2
    } else if v < 0x10000 {
        3
    } else {
        4
    }
}

proof fn lemma_byte_offset_increasing(s: Seq<char>, j: int, k: int)
    requires
        0 <= j <= k <= s.len(),
    ensures
        byte_offset(s, j) <= byte_offset(s, k),
        j < k ==> byte_offset(s, j) < byte_offset(s, k),
    decreases k - j,
{
    if j < k {
        lemma_byte_offset_increasing(s, j, k - 1);
    }
}

/// `&t[n..]` where byte `n` is a boundary; `None` where it is not.
fn slice_from_byte(t: &str, n: usize) -> (r: Option<&str>)
    requires
        n <= 16,
    ensures
        r is Some <==> is_boundary(t@, n as int),
        r matches Some(x) ==> x@ == from_byte(t@, n as int),
{
    let len = t.unicode_len();
    let mut k: usize = 0;
    let mut off: usize = 0;
    while k < len && off < n
        invariant
            len == t@.len(),
            k <= len,
            off == byte_offset(t@, k as int),
            k > 0 ==> byte_offset(t@, k - 1) < n,
            off <= n + 3,
            n <= 16,
        decreases len - k,
    {
        off = off + utf8_width_exec(t.get_char(k));
        k = k + 1;
    }
    if off == n {
        proof {
            let c = choose|j: int| 0 <= j <= t@.len() && byte_offset(t@, j) == n;
            if c < k {
                lemma_byte_offset_increasing(t@, c, k as int);
            } else if c > k {
                lemma_byte_offset_increasing(t@, k as int, c);
            }
        }
        Some(t.substring_char(k, len))
    } else {
        proof {
            assert forall|j: int| 0 <= j <= t@.len() implies byte_offset(t@, j) != n by {
                if j < k {
                    if k > 0 {
                        lemma_byte_offset_increasing(t@, j, k - 1);
                    }
                } else if j > k {
                    lemma_byte_offset_increasing(t@, k as int, j);
                }
            }
        }
        None
    }
}

/// One header line applied to the fields read so far.
fn take_line(line: &str, loc: &mut String, st: &mut String, usn: &mut String)
    requires
        line_ok(line@),
    ensures
        (final(loc)@, final(st)@, final(usn)@) == apply_line((old(loc)@, old(st)@, old(usn)@), line@),
{
    let t = trim_str(line);
    let upper = to_uppercase(t);
    proof {
        reveal_strlit("LOCATION:");
        reveal_strlit("ST:");
        reveal_strlit("USN:");
    }
    if starts_with_chars(upper.as_str(), "LOCATION:") {
        if let Some(rest) = slice_from_byte(t, 9) {
            *loc = trim_str(rest).to_owned();
        }
    } else if starts_with_chars(upper.as_str(), "ST:") {
        if let Some(rest) = slice_from_byte(t, 3) {
            *st = trim_str(rest).to_owned();
        }
    } else if starts_with_chars(upper.as_str(), "USN:") {
        if let Some(rest) = slice_from_byte(t, 4) {
            *usn = trim_str(rest).to_owned();
        }
    }
}

/// Reads a search response: `None` unless it begins with `HTTP/1.1 200 OK`
/// and names a location and a search target. Header names are matched
/// case-insensitively on trimmed lines; a later line overrides an earlier one.
pub fn parse_ssdp_response(packet: &[u8]) -> (r: Option<SsdpService>)
    requires
        ok_status(utf8_lossy(packet@)) ==> ssdp_text_ok(utf8_lossy(packet@)),
    ensures
        ssdp_service(packet@) is None ==> r is None,
        ssdp_service(packet@) matches Some(f) ==> r matches Some(svc) && svc.location@ == f.0 && svc.st@ == f.1
            && svc.usn@ == f.2,
{
    let data = lossy_string(packet);
    let text = data.as_str();
    proof {
        reveal_strlit("HTTP/1.1 200 OK");
    }
    if !starts_with_chars(text, "HTTP/1.1 200 OK") {
        return None;
    }
    let ghost s = text@;
    let n = text.unicode_len();
    let mut location = String::new();
    let mut st = String::new();
    let mut usn = String::new();
    let mut start: usize = 0;
    let mut i: usize = 0;
    while i < n
        invariant
            n == s.len(),
            s == text@,
            i <= n,
            start == line_start(s, i as int),
            start <= i,
            ssdp_text_ok(s),
            lines_ok_upto(s, n as int),
            (location@, st@, usn@) == fields_upto(s, i as int),
        decreases n - i,
    {
        if text.get_char(i) == '\n' {
            proof {
                lemma_lines_ok_prefix(s, i as int + 1, n as int);
            }
            let line = text.substring_char(start, i);
            take_line(line, &mut location, &mut st, &mut usn);
            start = i + 1;
        }
        i = i + 1;
    }
    if start < n {
        let line = text.substring_char(start, n);
        take_line(line, &mut location, &mut st, &mut usn);
    }
    assert(last_line(s).len() == 0 <==> start == n);
    if location.unicode_len() > 0 && st.unicode_len() > 0 {
        Some(SsdpService { location, st, usn })
    } else {
        None
    }
}

proof fn lemma_lines_ok_prefix(s: Seq<char>, k: int, n: int)
    requires
        0 <= k <= n <= s.len(),
        lines_ok_upto(s, n),
    ensures
        lines_ok_upto(s, k),
    decreases n - k,
{
    if k < n {
        lemma_lines_ok_prefix(s, k, n - 1);
    }
}

fn line_ok_exec(line: &str) -> (r: bool)
    ensures
        r == line_ok(line@),
{
    let t = trim_str(line);
    let upper = to_uppercase(t);
    proof {
        reveal_strlit("LOCATION:");
        reveal_strlit("ST:");
        reveal_strlit("USN:");
    }
    if starts_with_chars(upper.as_str(), "LOCATION:") {
        slice_from_byte(t, 9).is_some()
    } else if starts_with_chars(upper.as_str(), "ST:") {
        slice_from_byte(t, 3).is_some()
    } else if starts_with_chars(upper.as_str(), "USN:") {
        slice_from_byte(t, 4).is_some()
    } else {
        true
    }
}

/// Whether every header line of the response text can be read (each value
/// slice starts at a character boundary).
fn text_ok_exec(text: &str) -> (r: bool)
    ensures
        r == ssdp_text_ok(text@),
{
    let ghost s = text@;
    let n = text.unicode_len();
    let mut start: usize = 0;
    let mut i: usize = 0;
    while i < n
        invariant
            n == s.len(),
            s == text@,
            i <= n,
            start == line_start(s, i as int),
            start <= i,
            lines_ok_upto(s, i as int),
        decreases n - i,
    {
        if text.get_char(i) == '\n' {
            let line = text.substring_char(start, i);
            if !line_ok_exec(line) {
                proof {
                    lemma_lines_ok_prefix_inv(s, i as int + 1, n as int);
                }
                return false;
            }
            start = i + 1;
        }
        i = i + 1;
    }
    if start < n {
        let line = text.substring_char(start, n);
        line_ok_exec(line)
    } else {
        true
    }
}

proof fn lemma_lines_ok_prefix_inv(s: Seq<char>, k: int, n: int)
    requires
        0 <= k <= n <= s.len(),
        !lines_ok_upto(s, k),
    ensures
        !lines_ok_upto(s, n),
    decreases n - k,
{
    if k < n {
        lemma_lines_ok_prefix_inv(s, k, n - 1);
    }
}

/// Reads a search response where the parser can: `None` where a header
/// value would be sliced inside a character (the parser panics there);
/// otherwise what `parse_ssdp_response` gives.
pub fn checked_parse_ssdp_response(packet: &[u8]) -> (r: Option<Option<SsdpService>>)
    ensures
        r is None <==> (ok_status(utf8_lossy(packet@)) && !ssdp_text_ok(utf8_lossy(packet@))),
        r matches Some(inner) ==> {
            &&& ssdp_service(packet@) is None ==> inner is None
            &&& ssdp_service(packet@) matches Some(f) ==> inner matches Some(svc) && svc.location@ == f.0
                && svc.st@ == f.1 && svc.usn@ == f.2
        },
{
    let data = lossy_string(packet);
    proof {
        reveal_strlit("HTTP/1.1 200 OK");
    }
    if starts_with_chars(data.as_str(), "HTTP/1.1 200 OK") && !text_ok_exec(data.as_str()) {
        return None;
    }
    Some(parse_ssdp_response(packet))
}

} // verus!
