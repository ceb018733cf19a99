//! H.264 byte streams: start codes, NAL units, and the conversion of
//! length-prefixed payloads to Annex-B.

use vstd::prelude::*;
use crate::octets::{append, copy_range};

verus! {

/// The NAL unit type in the low five bits of a unit's first byte.
pub open spec fn nal_type(first: u8) -> u8 {
    first % 32
}

/// Extracts the NAL unit type from a unit's first byte.
pub fn nal_type_of(first: u8) -> (ty: u8)
    ensures
        ty == nal_type(first),
{
    assert((first & 0x1F) == first % 32) by (bit_vector);
    first & 0x1F
}

/// Whether `ty` is a type that a single NAL unit of an H.264 stream can have.
pub open spec fn valid_nal_type(ty: u8) -> bool {
    1 <= ty <= 23
}

/// Tests whether `ty` is a plausible H.264 NAL unit type.
pub fn is_valid_h264_nal_type(ty: u8) -> (ok: bool)
    ensures
        ok == valid_nal_type(ty),
{
    1 <= ty && ty <= 23
}

/// The four-byte start code that this library writes.
pub open spec fn start_code() -> Seq<u8> {
    seq![0x00u8, 0x00, 0x00, 0x01]
}

/// The three-byte start code, which is accepted on input.
pub open spec fn short_start_code() -> Seq<u8> {
    seq![0x00u8, 0x00, 0x01]
}

/// Whether `p` begins with a start code of either length.
pub open spec fn annexb_shaped(p: Seq<u8>) -> bool {
    short_start_code().is_prefix_of(p) || start_code().is_prefix_of(p)
}

/// Tests whether a payload already begins with a start code.
pub fn is_annexb(payload: &[u8]) -> (yes: bool)
    ensures
        yes == annexb_shaped(payload@),
{
    let n: usize = payload.len();
    let short: bool = n >= 3 && payload[0] == 0x00 && payload[1] == 0x00 && payload[2] == 0x01;
    let long: bool = n >= 4 && payload[0] == 0x00 && payload[1] == 0x00 && payload[2] == 0x00
        && payload[3] == 0x01;
    proof {
        if short {
            assert(short_start_code() =~= payload@.subrange(0, 3));
        }
        if long {
            assert(start_code() =~= payload@.subrange(0, 4));
        }
        if short_start_code().is_prefix_of(payload@) {
            assert(short_start_code()[0] == payload@[0]);
            assert(short_start_code()[1] == payload@[1]);
            assert(short_start_code()[2] == payload@[2]);
        }
        if start_code().is_prefix_of(payload@) {
            assert(start_code()[0] == payload@[0]);
            assert(start_code()[1] == payload@[1]);
            assert(start_code()[2] == payload@[2]);
            assert(start_code()[3] == payload@[3]);
        }
    }
    short || long
}

/// Appends the four-byte start code to `out`.
pub fn push_start_code(out: &mut Vec<u8>)
    ensures
        final(out)@ == old(out)@ + start_code(),
{
    out.push(0x00);
    out.push(0x00);
    out.push(0x00);
    out.push(0x01);
    assert(out@ =~= old(out)@ + start_code());
}

// ---------------------------------------------------------------------------
// Length-prefixed payloads
// ---------------------------------------------------------------------------

/// The unsigned integer that `width` bytes of `p` spell from `at`, most
/// significant first, for a width of one to four bytes.
pub open spec fn prefix_value(p: Seq<u8>, at: int, width: int) -> int {
    if width == 1 {
        p[at] as int
    } else if width == 2 {
        p[at] * 0x100 + p[at + 1]
    } else if width == 3 {
        p[at] * 0x1_0000 + p[at + 1] * 0x100 + p[at + 2]
    } else {
        p[at] * 0x100_0000 + p[at + 1] * 0x1_0000 + p[at + 2] * 0x100 + p[at + 3]
    }
}

/// Reads a length prefix of `width` bytes.
fn read_prefix(payload: &[u8], at: usize, width: usize) -> (n: u64)
    requires
        1 <= width <= 4,
        at + width <= payload@.len(),
    ensures
        n == prefix_value(payload@, at as int, width as int),
{
    if width == 1 {
        payload[at] as u64
    } else if width == 2 {
        (payload[at] as u64) * 0x100 + payload[at + 1] as u64
    } else if width == 3 {
        (payload[at] as u64) * 0x1_0000 + (payload[at + 1] as u64) * 0x100 + payload[at + 2] as u64
    } else {
        (payload[at] as u64) * 0x100_0000 + (payload[at + 1] as u64) * 0x1_0000 + (payload[at
            + 2] as u64) * 0x100 + payload[at + 3] as u64
    }
}

/// The NAL units that `p` holds from `at` on, each behind a length prefix of
/// `width` bytes, if the records account for every byte to the end: no
/// record is empty, none runs past the end, each begins with a valid type,
/// and nothing is left over.
pub open spec fn records_from(p: Seq<u8>, width: int, at: int) -> Option<Seq<Seq<u8>>>
    decreases p.len() - at,
{
    if width < 1 || at < 0 {
        None
    } else if at + width > p.len() {
        if at == p.len() {
            Some(Seq::empty())
        } else {
            None
        }
    } else {
        let n = prefix_value(p, at, width);
        let body = at + width;
        if n <= 0 || body + n > p.len() || !valid_nal_type(nal_type(p[body])) {
            None
        } else {
            match records_from(p, width, body + n) {
                Some(rest) => Some(seq![p.subrange(body, body + n)] + rest),
                None => None,
            }
        }
    }
}

/// The NAL units of a payload that consists of length-prefixed records,
/// for a prefix of one to four bytes and a payload longer than one prefix.
pub open spec fn length_prefixed_units(p: Seq<u8>, width: int) -> Option<Seq<Seq<u8>>> {
    if 1 <= width <= 4 && p.len() >= width + 1 {
        records_from(p, width, 0)
    } else {
        None
    }
}

/// `units` behind `head`, where there are any.
pub open spec fn units_after(head: Seq<Seq<u8>>, tail: Option<Seq<Seq<u8>>>) -> Option<
    Seq<Seq<u8>>,
> {
    match tail {
        Some(rest) => Some(head + rest),
        None => None,
    }
}

/// The Annex-B stream of `units`: each unit behind a four-byte start code.
pub open spec fn annexb_join(units: Seq<Seq<u8>>) -> Seq<u8>
    decreases units.len(),
{
    if units.len() == 0 {
        Seq::empty()
    } else {
        annexb_join(units.drop_last()) + start_code() + units.last()
    }
}

/// Every unit is non-empty and begins with a valid NAL type.
pub open spec fn units_valid(units: Seq<Seq<u8>>) -> bool {
    forall|i: int|
        0 <= i < units.len() ==> (#[trigger] units[i]).len() > 0 && valid_nal_type(
            nal_type(units[i][0]),
        )
}

/// The records found from any offset are valid units.
pub proof fn lemma_records_valid(p: Seq<u8>, width: int, at: int)
    ensures
        match records_from(p, width, at) {
            Some(units) => units_valid(units),
            None => true,
        },
    decreases p.len() - at,
{
    if width >= 1 && at >= 0 && at + width <= p.len() {
        let n = prefix_value(p, at, width);
        let body = at + width;
        if !(n <= 0 || body + n > p.len() || !valid_nal_type(nal_type(p[body]))) {
            lemma_records_valid(p, width, body + n);
            match records_from(p, width, body + n) {
                Some(rest) => {
                    let units = seq![p.subrange(body, body + n)] + rest;
                    assert forall|i: int| 0 <= i < units.len() implies (#[trigger] units[i]).len()
                        > 0 && valid_nal_type(nal_type(units[i][0])) by {
                        if i > 0 {
                            assert(units[i] == rest[i - 1]);
                        }
                    }
                },
                None => {},
            }
        }
    }
}

/// Walks the records of a length-prefixed payload. Returns the Annex-B form
/// of its units when `convert` is set, and an empty vector otherwise.
fn walk_records(payload: &[u8], len_bytes: usize, convert: bool) -> (r: Option<Vec<u8>>)
    requires
        1 <= len_bytes <= 4,
    ensures
        match r {
            Some(out) => length_prefixed_units(payload@, len_bytes as int) is Some && out@ == if convert {
                annexb_join(length_prefixed_units(payload@, len_bytes as int)->0)
            } else {
                Seq::empty()
            },
            None => length_prefixed_units(payload@, len_bytes as int) is None,
        },
{
    let total: usize = payload.len();
    if total < 1 || total - 1 < len_bytes {
        return None;
    }
    let mut i: usize = 0;
    let mut out: Vec<u8> = Vec::new();
    let ghost mut seen: Seq<Seq<u8>> = Seq::empty();
    let ghost p = payload@;
    let ghost width = len_bytes as int;

    while total - i >= len_bytes
        invariant
            1 <= len_bytes <= 4,
            i <= total == p.len(),
            p == payload@,
            width == len_bytes as int,
            records_from(p, width, 0) == units_after(seen, records_from(p, width, i as int)),
            out@ == if convert {
                annexb_join(seen)
            } else {
                Seq::empty()
            },
        decreases total - i,
    {
        let nal_len: u64 = read_prefix(payload, i, len_bytes);
        let room: usize = total - i - len_bytes;
        if nal_len == 0 || nal_len > room as u64 {
            return None;
        }
        let body: usize = i + len_bytes;
        let n: usize = nal_len as usize;
        if !is_valid_h264_nal_type(nal_type_of(payload[body])) {
            return None;
        }
        if convert {
            push_start_code(&mut out);
            append(&mut out, vstd::slice::slice_subrange(payload, body, body + n));
        }
        proof {
            let unit = p.subrange(body as int, body + n);
            let rest = records_from(p, width, body + n);
            assert(records_from(p, width, i as int) == units_after(seq![unit], rest));
            assert(seen.push(unit).drop_last() =~= seen);
            match rest {
                Some(r) => {
                    assert(seen + (seq![unit] + r) =~= seen.push(unit) + r);
                },
                None => {},
            }
            seen = seen.push(unit);
        }
        i = body + n;
    }
    proof {
        match records_from(p, width, i as int) {
            Some(r) => {
                assert(seen + r =~= seen);
            },
            None => {},
        }
    }
    if i == total {
        Some(out)
    } else {
        None
    }
}

/// Tests whether a payload is a sequence of NAL units behind length prefixes
/// of two, three or four bytes that accounts for every byte.
pub fn looks_like_length_prefixed(payload: &[u8], len_bytes: usize) -> (yes: bool)
    ensures
        yes == (2 <= len_bytes <= 4 && length_prefixed_units(payload@, len_bytes as int) is Some),
{
    if len_bytes < 2 || len_bytes > 4 {
        return false;
    }
    walk_records(payload, len_bytes, false).is_some()
}

/// Converts a payload of length-prefixed NAL units to Annex-B. Returns `None`
/// unless the records account for every byte of the payload.
pub fn convert_length_prefixed(payload: &[u8], len_bytes: usize) -> (r: Option<Vec<u8>>)
    ensures
        match r {
            Some(out) => length_prefixed_units(payload@, len_bytes as int) is Some && out@
                == annexb_join(length_prefixed_units(payload@, len_bytes as int)->0),
            None => length_prefixed_units(payload@, len_bytes as int) is None,
        },
{
    if len_bytes < 1 || len_bytes > 4 {
        return None;
    }
    walk_records(payload, len_bytes, true)
}

/// The NAL units that a payload is taken to hold when it does not begin with
/// a start code: its records behind prefixes of four, three or two bytes, in
/// that order of preference, else the payload itself if it begins with a
/// valid NAL type.
pub open spec fn payload_units(p: Seq<u8>) -> Option<Seq<Seq<u8>>> {
    if length_prefixed_units(p, 4) is Some {
        length_prefixed_units(p, 4)
    } else if length_prefixed_units(p, 3) is Some {
        length_prefixed_units(p, 3)
    } else if length_prefixed_units(p, 2) is Some {
        length_prefixed_units(p, 2)
    } else if p.len() > 0 && valid_nal_type(nal_type(p[0])) {
        Some(seq![p])
    } else {
        None
    }
}

/// The Annex-B form of a payload: the payload itself where it begins with a
/// start code, else its units each behind a start code, else nothing.
pub open spec fn annexb_form(p: Seq<u8>) -> Seq<u8> {
    if p.len() == 0 {
        Seq::empty()
    } else if annexb_shaped(p) {
        p
    } else {
        match payload_units(p) {
            Some(units) => annexb_join(units),
            None => Seq::empty(),
        }
    }
}

/// Normalizes a video payload to Annex-B. An empty result means that the
/// payload is none of the accepted forms.
pub fn ensure_annexb(payload: &[u8]) -> (out: Vec<u8>)
    ensures
        out@ == annexb_form(payload@),
        out@.len() == 0 || annexb_shaped(out@),
{
    proof {
        lemma_annexb_form(payload@);
    }
    if payload.len() == 0 {
        return Vec::new();
    }
    if is_annexb(payload) {
        let out: Vec<u8> = copy_range(payload, 0, payload.len());
        assert(out@ =~= payload@);
        return out;
    }
    if let Some(v) = convert_length_prefixed(payload, 4) {
        return v;
    }
    if let Some(v) = convert_length_prefixed(payload, 3) {
        return v;
    }
    if let Some(v) = convert_length_prefixed(payload, 2) {
        return v;
    }
    if is_valid_h264_nal_type(nal_type_of(payload[0])) {
        let mut out: Vec<u8> = Vec::with_capacity(4);
        push_start_code(&mut out);
        append(&mut out, payload);
        proof {
            let units = seq![payload@];
            assert(units.drop_last() =~= Seq::<Seq<u8>>::empty());
            assert(annexb_join(units.drop_last()) =~= Seq::<u8>::empty());
            assert(out@ =~= annexb_join(units));
        }
        return out;
    }
    Vec::new()
}

/// Units behind start codes begin with a start code.
pub proof fn lemma_join_begins_with_start_code(units: Seq<Seq<u8>>)
    requires
        units.len() > 0,
    ensures
        start_code().is_prefix_of(annexb_join(units)),
        annexb_join(units).len() >= 4,
    decreases units.len(),
{
    let joined = annexb_join(units);
    if units.len() == 1 {
        assert(units.drop_last() =~= Seq::<Seq<u8>>::empty());
        assert(annexb_join(units.drop_last()) =~= Seq::<u8>::empty());
        assert(joined.subrange(0, 4) =~= start_code());
    } else {
        lemma_join_begins_with_start_code(units.drop_last());
        let head = annexb_join(units.drop_last());
        assert(head.subrange(0, 4) == start_code());
        assert(joined.subrange(0, 4) =~= head.subrange(0, 4));
    }
}

/// A payload that consists of records holds at least one.
pub proof fn lemma_records_nonempty(p: Seq<u8>, width: int)
    requires
        length_prefixed_units(p, width) is Some,
    ensures
        length_prefixed_units(p, width)->0.len() > 0,
{
}

/// The units that a payload is taken to hold are valid, and there is at
/// least one of them.
pub proof fn lemma_payload_units_valid(p: Seq<u8>)
    requires
        payload_units(p) is Some,
    ensures
        payload_units(p)->0.len() > 0,
        units_valid(payload_units(p)->0),
{
    lemma_records_valid(p, 4, 0);
    lemma_records_valid(p, 3, 0);
    lemma_records_valid(p, 2, 0);
    if length_prefixed_units(p, 4) is Some {
        lemma_records_nonempty(p, 4);
    } else if length_prefixed_units(p, 3) is Some {
        lemma_records_nonempty(p, 3);
    } else if length_prefixed_units(p, 2) is Some {
        lemma_records_nonempty(p, 2);
    } else {
        assert(seq![p][0] == p);
    }
}

/// The Annex-B form of a payload is empty or begins with a start code. Where
/// the payload did not begin with one itself, its form is made of the
/// payload's units, each behind a four-byte start code, and every one of
/// them begins with a NAL type from 1 to 23.
pub proof fn lemma_annexb_form(p: Seq<u8>)
    ensures
        annexb_form(p).len() == 0 || annexb_shaped(annexb_form(p)),
        annexb_form(p).len() > 0 && !annexb_shaped(p) ==> payload_units(p) is Some && annexb_form(p)
            == annexb_join(payload_units(p)->0) && units_valid(payload_units(p)->0)
            && start_code().is_prefix_of(annexb_form(p)),
        annexb_form(p).len() > 0 <==> p.len() > 0 && (annexb_shaped(p) || payload_units(p) is Some),
{
    if p.len() > 0 && !annexb_shaped(p) && payload_units(p) is Some {
        lemma_payload_units_valid(p);
        lemma_join_begins_with_start_code(payload_units(p)->0);
    }
}

} // verus!
