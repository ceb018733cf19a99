//! Splitting an Annex-B stream into its NAL units.

use vstd::prelude::*;
use crate::octets::append;
use crate::parser::annexb::{nal_type, nal_type_of, push_start_code, start_code};

verus! {

/// NAL unit type of a sequence parameter set.
pub const NAL_SPS: u8 = 7;

/// NAL unit type of a picture parameter set.
pub const NAL_PPS: u8 = 8;

/// NAL unit type of a slice of an IDR picture.
pub const NAL_IDR: u8 = 5;

/// Length of the start code that begins at `at`: 4 for `00 00 00 01`, else 3
/// for `00 00 01`, else 0.
pub open spec fn start_code_len_at(d: Seq<u8>, at: int) -> int {
    if 0 <= at && at + 4 <= d.len() && d[at] == 0x00 && d[at + 1] == 0x00 && d[at + 2] == 0x00
        && d[at + 3] == 0x01 {
        4
    } else if 0 <= at && at + 3 <= d.len() && d[at] == 0x00 && d[at + 1] == 0x00 && d[at + 2]
        == 0x01 {
        3
    } else {
        0
    }
}

/// Position and length of the first start code at or after `from`.
pub open spec fn first_start_code(d: Seq<u8>, from: int) -> Option<(int, int)>
    decreases d.len() - from,
{
    if from < 0 || from + 3 > d.len() {
        None
    } else if start_code_len_at(d, from) > 0 {
        Some((from, start_code_len_at(d, from)))
    } else {
        first_start_code(d, from + 1)
    }
}

/// The first start code lies at or after `from`, is three or four bytes long,
/// ends within the data, and no start code begins between `from` and it.
pub proof fn lemma_first_start_code(d: Seq<u8>, from: int)
    ensures
        first_start_code(d, from) is Some ==> {
            let found = first_start_code(d, from)->0;
            let at = found.0;
            let len = found.1;
            &&& 0 <= from <= at
            &&& 3 <= len <= 4
            &&& at + len <= d.len()
            &&& len == start_code_len_at(d, at)
            &&& forall|j: int| from <= j < at ==> start_code_len_at(d, j) == 0
        },
        first_start_code(d, from) is None ==> forall|j: int|
            0 <= from <= j ==> start_code_len_at(d, j) == 0,
        0 <= from <= d.len() ==> from <= unit_end(d, from) <= d.len(),
    decreases d.len() - from,
{
    if !(from < 0 || from + 3 > d.len()) && start_code_len_at(d, from) == 0 {
        lemma_first_start_code(d, from + 1);
    }
}

/// Finds the first start code at or after `from`, as its position and length.
pub fn find_start_code(data: &[u8], from: usize) -> (r: Option<(usize, usize)>)
    ensures
        match r {
            Some((at, len)) => first_start_code(data@, from as int) == Some((at as int, len as int))
                && from <= at && 3 <= len <= 4 && at + len <= data@.len(),
            None => first_start_code(data@, from as int) is None,
        },
{
    let n: usize = data.len();
    let mut i: usize = from;
    while i <= n && n - i >= 3
        invariant
            n == data@.len(),
            from <= i,
            first_start_code(data@, from as int) == first_start_code(data@, i as int),
        decreases n - i,
    {
        if n - i >= 4 && data[i] == 0x00 && data[i + 1] == 0x00 && data[i + 2] == 0x00 && data[i
            + 3] == 0x01 {
            return Some((i, 4));
        }
        if data[i] == 0x00 && data[i + 1] == 0x00 && data[i + 2] == 0x01 {
            return Some((i, 3));
        }
        i += 1;
    }
    None
}

/// Where the unit that begins at `start` ends: at the next start code, or at
/// the end of the data.
pub open spec fn unit_end(d: Seq<u8>, start: int) -> int {
    match first_start_code(d, start) {
        Some((at, _)) => at,
        None => d.len() as int,
    }
}

/// The NAL units of `d` from `pos` on: the bytes between each start code and
/// the next one, or the end. A start code that another follows at once holds
/// no unit.
pub open spec fn nal_units_from(d: Seq<u8>, pos: int) -> Seq<Seq<u8>>
    decreases d.len() - pos,
{
    match first_start_code(d, pos) {
        None => Seq::empty(),
        Some((at, len)) => {
            let start = at + len;
            let end = unit_end(d, start);
            let head = if start < end {
                seq![d.subrange(start, end)]
            } else {
                Seq::empty()
            };
            if pos < end < d.len() {
                head + nal_units_from(d, end)
            } else {
                head
            }
        },
    }
}

/// The NAL units of an Annex-B stream, in order.
pub open spec fn nal_units(d: Seq<u8>) -> Seq<Seq<u8>> {
    nal_units_from(d, 0)
}

/// No unit is empty.
pub proof fn lemma_units_nonempty(d: Seq<u8>, pos: int)
    ensures
        forall|i: int|
            0 <= i < nal_units_from(d, pos).len() ==> (#[trigger] nal_units_from(d, pos)[i]).len()
                > 0,
    decreases d.len() - pos,
{
    lemma_first_start_code(d, pos);
    if first_start_code(d, pos) is Some {
        let found = first_start_code(d, pos)->0;
        let at = found.0;
        let len = found.1;
        let start = at + len;
        let end = unit_end(d, start);
        lemma_first_start_code(d, start);
        let head = if start < end {
            seq![d.subrange(start, end)]
        } else {
            Seq::<Seq<u8>>::empty()
        };
        if pos < end < d.len() {
            lemma_units_nonempty(d, end);
            let tail = nal_units_from(d, end);
            assert(nal_units_from(d, pos) == head + tail);
            assert forall|i: int| 0 <= i < (head + tail).len() implies (#[trigger] (head
                + tail)[i]).len() > 0 by {
                if i >= head.len() {
                    assert((head + tail)[i] == tail[i - head.len()]);
                }
            }
        } else {
            assert(nal_units_from(d, pos) == head);
        }
    }
}

/// The types of the NAL units of `d`, in order.
pub open spec fn unit_types(d: Seq<u8>) -> Seq<u8> {
    Seq::new(nal_units(d).len(), |i: int| nal_type(nal_units(d)[i][0]))
}

/// Splits an Annex-B stream into its NAL units.
pub fn annexb_nals<'a>(data: &'a [u8]) -> (out: Vec<&'a [u8]>)
    ensures
        out@.len() == nal_units(data@).len(),
        forall|i: int| 0 <= i < out@.len() ==> (#[trigger] out@[i])@ == nal_units(data@)[i],
{
    let mut out: Vec<&'a [u8]> = Vec::new();
    let mut pos: usize = 0;
    let total: usize = data.len();
    let ghost mut seen: Seq<Seq<u8>> = Seq::empty();

    loop
        invariant
            pos <= total == data@.len(),
            seen + nal_units_from(data@, pos as int) == nal_units(data@),
            out@.len() == seen.len(),
            forall|i: int| 0 <= i < out@.len() ==> (#[trigger] out@[i])@ == seen[i],
        ensures
            seen == nal_units(data@),
            out@.len() == seen.len(),
            forall|i: int| 0 <= i < out@.len() ==> (#[trigger] out@[i])@ == seen[i],
        decreases data@.len() - pos,
    {
        proof {
            lemma_first_start_code(data@, pos as int);
        }
        let found: Option<(usize, usize)> = find_start_code(data, pos);
        match found {
            None => {
                proof {
                    assert(seen + Seq::<Seq<u8>>::empty() =~= seen);
                }
                break ;
            },
            Some((sc_pos, sc_len)) => {
                let nal_start: usize = sc_pos + sc_len;
                proof {
                    lemma_first_start_code(data@, nal_start as int);
                }
                let next: usize = match find_start_code(data, nal_start) {
                    Some((p, _)) => p,
                    None => total,
                };
                let ghost head = if nal_start < next {
                    seq![data@.subrange(nal_start as int, next as int)]
                } else {
                    Seq::<Seq<u8>>::empty()
                };
                if nal_start < next {
                    out.push(vstd::slice::slice_subrange(data, nal_start, next));
                }
                proof {
                    if next < data@.len() {
                        assert(seen + (head + nal_units_from(data@, next as int)) =~= (seen + head)
                            + nal_units_from(data@, next as int));
                    }
                    seen = seen + head;
                }
                pos = next;
                if pos >= total {
                    break ;
                }
            },
        }
    }
    out
}

/// Tests whether an Annex-B stream holds a NAL unit of type `target`.
pub fn has_nal_type(data: &[u8], target: u8) -> (yes: bool)
    ensures
        yes == unit_types(data@).contains(target),
{
    let nals: Vec<&[u8]> = annexb_nals(data);
    proof {
        lemma_units_nonempty(data@, 0);
    }
    let mut i: usize = 0;
    while i < nals.len()
        invariant
            i <= nals@.len() == nal_units(data@).len(),
            forall|k: int| 0 <= k < nals@.len() ==> (#[trigger] nals@[k])@ == nal_units(data@)[k],
            forall|k: int|
                0 <= k < nal_units(data@).len() ==> (#[trigger] nal_units(data@)[k]).len() > 0,
            forall|k: int| 0 <= k < i ==> unit_types(data@)[k] != target,
        decreases nals@.len() - i,
    {
        let nal: &[u8] = nals[i];
        assert(nal@ == nal_units(data@)[i as int]);
        if nal.len() > 0 && nal_type_of(nal[0]) == target {
            assert(unit_types(data@)[i as int] == target);
            return true;
        }
        i += 1;
    }
    false
}

/// The last of `units` whose type is `ty`.
pub open spec fn last_unit_of_type(units: Seq<Seq<u8>>, ty: u8) -> Option<Seq<u8>>
    decreases units.len(),
{
    if units.len() == 0 {
        None
    } else if nal_type(units.last()[0]) == ty {
        Some(units.last())
    } else {
        last_unit_of_type(units.drop_last(), ty)
    }
}

/// The last unit of type `ty` in `d`, behind a four-byte start code.
pub open spec fn parameter_set(d: Seq<u8>, ty: u8) -> Option<Seq<u8>> {
    match last_unit_of_type(nal_units(d), ty) {
        Some(unit) => Some(start_code() + unit),
        None => None,
    }
}

/// What an optional byte vector holds.
pub open spec fn opt_bytes(v: Option<Vec<u8>>) -> Option<Seq<u8>> {
    match v {
        Some(bytes) => Some(bytes@),
        None => None,
    }
}

/// Finds the last sequence parameter set and the last picture parameter set
/// of an Annex-B stream, each behind a four-byte start code.
pub fn extract_parameter_sets(data: &[u8]) -> (r: (Option<Vec<u8>>, Option<Vec<u8>>))
    ensures
        opt_bytes(r.0) == parameter_set(data@, NAL_SPS),
        opt_bytes(r.1) == parameter_set(data@, NAL_PPS),
{
    let mut sps: Option<Vec<u8>> = None;
    let mut pps: Option<Vec<u8>> = None;
    let nals: Vec<&[u8]> = annexb_nals(data);
    let ghost units = nal_units(data@);
    proof {
        lemma_units_nonempty(data@, 0);
        assert(units.take(0) =~= Seq::<Seq<u8>>::empty());
    }
    let mut i: usize = 0;
    while i < nals.len()
        invariant
            units == nal_units(data@),
            i <= nals@.len() == units.len(),
            forall|k: int| 0 <= k < nals@.len() ==> (#[trigger] nals@[k])@ == units[k],
            forall|k: int| 0 <= k < units.len() ==> (#[trigger] units[k]).len() > 0,
            opt_bytes(sps) == match last_unit_of_type(units.take(i as int), NAL_SPS) {
                Some(unit) => Some(start_code() + unit),
                None => None,
            },
            opt_bytes(pps) == match last_unit_of_type(units.take(i as int), NAL_PPS) {
                Some(unit) => Some(start_code() + unit),
                None => None,
            },
        decreases nals@.len() - i,
    {
        let nal: &[u8] = nals[i];
        proof {
            assert(nal@ == units[i as int]);
            assert(units.take(i + 1).drop_last() =~= units.take(i as int));
            assert(units.take(i + 1).last() == units[i as int]);
        }
        if nal.len() > 0 {
            let ty: u8 = nal_type_of(nal[0]);
            if ty == NAL_SPS {
                let mut v: Vec<u8> = Vec::with_capacity(4);
                push_start_code(&mut v);
                append(&mut v, nal);
                sps = Some(v);
            } else if ty == NAL_PPS {
                let mut v: Vec<u8> = Vec::with_capacity(4);
                push_start_code(&mut v);
                append(&mut v, nal);
                pps = Some(v);
            }
        }
        i += 1;
    }
    proof {
        assert(units.take(i as int) =~= units);
    }
    (sps, pps)
}

} // verus!
