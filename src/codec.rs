//! The `traceparent` propagation header:
//! `<2-hex-version>-<32-hex-trace-id>-<16-hex-parent-id>-<2-hex-flags>`.

use vstd::prelude::*;

verus! {

/// Length of a well-formed header: 2 + 1 + 32 + 1 + 16 + 1 + 2 characters.
pub const HEADER_LEN: usize = 55;

pub open spec fn is_hex_digit(c: char) -> bool {
    ('0' <= c && c <= '9') || ('a' <= c && c <= 'f') || ('A' <= c && c <= 'F')
}

pub open spec fn all_hex(s: Seq<char>) -> bool {
    forall|i: int| 0 <= i < s.len() ==> is_hex_digit(#[trigger] s[i])
}

pub open spec fn all_zero(s: Seq<char>) -> bool {
    forall|i: int| 0 <= i < s.len() ==> #[trigger] s[i] == '0'
}

/// A field of exactly `n` hex digits.
pub open spec fn is_hex_field(s: Seq<char>, n: nat) -> bool {
    s.len() == n && all_hex(s)
}

/// A well-formed header: exactly four fields separated by `-` (hex digits
/// hold no `-`), a 2-digit version, a 32-digit trace id that is not all
/// zeros, a 16-digit parent id that is not all zeros and 2 digits of flags.
pub open spec fn is_valid_header(h: Seq<char>) -> bool {
    &&& h.len() == HEADER_LEN
    &&& h[2] == '-'
    &&& h[35] == '-'
    &&& h[52] == '-'
    &&& is_hex_field(h.subrange(0, 2), 2)
    &&& is_hex_field(h.subrange(3, 35), 32)
    &&& !all_zero(h.subrange(3, 35))
    &&& is_hex_field(h.subrange(36, 52), 16)
    &&& !all_zero(h.subrange(36, 52))
    &&& is_hex_field(h.subrange(53, 55), 2)
}

/// What a header carries: (trace id, parent span id, flags), or nothing when
/// it is malformed.
pub open spec fn header_fields(h: Seq<char>) -> Option<(Seq<char>, Seq<char>, Seq<char>)> {
    if is_valid_header(h) {
        Some((h.subrange(3, 35), h.subrange(36, 52), h.subrange(53, 55)))
    } else {
        None
    }
}

/// The header written for a trace id, a span id and flags, at version `00`.
pub open spec fn header_text(trace_id: Seq<char>, span_id: Seq<char>, flags: Seq<char>) -> Seq<char> {
    seq!['0', '0', '-'] + trace_id + seq!['-'] + span_id + seq!['-'] + flags
}

/// The parts of a well-formed header.
pub struct TraceParent {
    pub trace_id: String,
    pub parent_id: String,
    pub flags: String,
}

/// Relies on indexing a `str` by a byte range: on ASCII text each character
/// is one byte, so the bytes `lo..hi` are the characters `lo..hi`, and every
/// offset is a character boundary (no panic).
#[verifier::external_body]
fn ascii_slice(s: &str, lo: usize, hi: usize) -> (r: &str)
    requires
        vstd::string::is_ascii(s),
        lo <= hi <= s@.len(),
    ensures
        r@ == s@.subrange(lo as int, hi as int),
{
    &s[lo..hi]
}

/// The characters of `s`, in order.
fn chars_of(s: &str) -> (r: Vec<char>)
    ensures
        r@ == s@,
{
    broadcast use vstd::string::axiom_spec_iter;

    let mut out: Vec<char> = Vec::new();
    for c in it: s.chars()
        invariant
            out@ == it.history(),
    {
        out.push(c);
    }
    out
}

fn is_hex_char(c: char) -> (r: bool)
    ensures
        r == is_hex_digit(c),
{
    ('0' <= c && c <= '9') || ('a' <= c && c <= 'f') || ('A' <= c && c <= 'F')
}

/// Whether `cs[lo..hi]` holds hex digits only, and whether it holds a digit
/// other than `0`.
fn scan_field(cs: &Vec<char>, lo: usize, hi: usize) -> (r: (bool, bool))
    requires
        lo <= hi <= cs@.len(),
    ensures
        r.0 == all_hex(cs@.subrange(lo as int, hi as int)),
        r.1 == !all_zero(cs@.subrange(lo as int, hi as int)),
{
    let mut hex = true;
    let mut nonzero = false;
    let mut i: usize = lo;
    while i < hi
        invariant
            lo <= i <= hi,
            hi <= cs@.len(),
            hex == all_hex(cs@.subrange(lo as int, i as int)),
            nonzero == !all_zero(cs@.subrange(lo as int, i as int)),
        decreases hi - i,
    {
        let c = cs[i];
        proof {
            let a = cs@.subrange(lo as int, i as int);
            let b = cs@.subrange(lo as int, i + 1);
            assert(b =~= a.push(c));
            assert(b[i - lo] == c);
            if !all_hex(a) {
                let k = choose|k: int| 0 <= k < a.len() && !is_hex_digit(a[k]);
                assert(b[k] == a[k]);
            }
            if !all_zero(a) {
                let k = choose|k: int| 0 <= k < a.len() && a[k] != '0';
                assert(b[k] == a[k]);
            }
        }
        hex = hex && is_hex_char(c);
        nonzero = nonzero || c != '0';
        i = i + 1;
    }
    (hex, nonzero)
}

/// Parses a `traceparent` header. Any malformed header gives `None`, never an
/// error.
pub fn parse_header(header: &str) -> (r: Option<TraceParent>)
    ensures
        r is Some <==> is_valid_header(header@),
        r matches Some(p) ==> header_fields(header@) == Some((p.trace_id@, p.parent_id@, p.flags@)),
{
    if !header.is_ascii() {
        proof {
            if is_valid_header(header@) {
                assert forall|i: int| 0 <= i < header@.len() implies '\0' <= #[trigger] header@[i] <= '\u{7f}' by {
                    if i < 2 {
                        assert(header@.subrange(0, 2)[i] == header@[i]);
                    } else if 2 < i < 35 {
                        assert(header@.subrange(3, 35)[i - 3] == header@[i]);
                    } else if 35 < i < 52 {
                        assert(header@.subrange(36, 52)[i - 36] == header@[i]);
                    } else if 52 < i {
                        assert(header@.subrange(53, 55)[i - 53] == header@[i]);
                    }
                }
                assert(vstd::utf8::is_ascii_chars(header@));
            }
        }
        return None;
    }
    let cs = chars_of(header);
    if cs.len() != HEADER_LEN || cs[2] != '-' || cs[35] != '-' || cs[52] != '-' {
        return None;
    }
    let (version_hex, _) = scan_field(&cs, 0, 2);
    let (trace_hex, trace_nonzero) = scan_field(&cs, 3, 35);
    let (parent_hex, parent_nonzero) = scan_field(&cs, 36, 52);
    let (flags_hex, _) = scan_field(&cs, 53, 55);
    if !(version_hex && trace_hex && trace_nonzero && parent_hex && parent_nonzero && flags_hex) {
        return None;
    }
    let trace_id = ascii_slice(header, 3, 35).to_owned();
    let parent_id = ascii_slice(header, 36, 52).to_owned();
    let flags = ascii_slice(header, 53, 55).to_owned();
    Some(TraceParent { trace_id, parent_id, flags })
}

/// Parses a `traceparent` header into (trace id, parent span id).
pub fn parse_traceparent(header_val: &str) -> (r: Option<(String, String)>)
    ensures
        r is Some <==> is_valid_header(header_val@),
        r matches Some(p) ==> header_fields(header_val@) matches Some(f) && p.0@ == f.0 && p.1@
            == f.1,
{
    match parse_header(header_val) {
        Some(p) => Some((p.trace_id, p.parent_id)),
        None => None,
    }
}

/// Writes the header that continues a trace downstream, at version `00`.
pub fn serialize(trace_id: &str, span_id: &str, flags: &str) -> (r: String)
    ensures
        r@ == header_text(trace_id@, span_id@, flags@),
{
    let mut out = String::from_str("00-");
    out.append(trace_id);
    out.append("-");
    out.append(span_id);
    out.append("-");
    out.append(flags);
    proof {
        reveal_strlit("00-");
        reveal_strlit("-");
    }
    out
}

/// Round trip: parsing the header written for a valid trace id, span id and
/// flags gives back exactly those three values.
pub proof fn lemma_round_trip(trace_id: Seq<char>, span_id: Seq<char>, flags: Seq<char>)
    requires
        is_hex_field(trace_id, 32),
        !all_zero(trace_id),
        is_hex_field(span_id, 16),
        !all_zero(span_id),
        is_hex_field(flags, 2),
    ensures
        header_fields(header_text(trace_id, span_id, flags)) == Some((trace_id, span_id, flags)),
{
    let h = header_text(trace_id, span_id, flags);
    assert(h.subrange(0, 2) =~= seq!['0', '0']);
    assert(h.subrange(3, 35) =~= trace_id);
    assert(h.subrange(36, 52) =~= span_id);
    assert(h.subrange(53, 55) =~= flags);
    assert(h[2] == '-');
    assert(h[35] == '-');
    assert(h[52] == '-');
    assert(is_hex_digit(h.subrange(0, 2)[0]));
    assert(is_hex_digit(h.subrange(0, 2)[1]));
}

} // verus!
