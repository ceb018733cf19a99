//! How the NAL units of a stream relate to those of its parts.

use vstd::prelude::*;
use crate::parser::annexb::{
    annexb_form, annexb_join, annexb_shaped, lemma_payload_units_valid, nal_type, payload_units,
    start_code, valid_nal_type,
};
use crate::parser::nal::{
    first_start_code, lemma_first_start_code, nal_units, nal_units_from, start_code_len_at,
    unit_end, unit_types,
};

verus! {

/// Whether no start code begins anywhere in `u`.
pub open spec fn free_of_start_codes(u: Seq<u8>) -> bool {
    forall|j: int| 0 <= j < u.len() ==> #[trigger] start_code_len_at(u, j) == 0
}

/// In front of a four-byte start code, a start code begins where it began
/// before and nowhere else.
proof fn lemma_len_at_in_front(a: Seq<u8>, b: Seq<u8>, j: int)
    requires
        start_code().is_prefix_of(b),
        0 <= j < a.len(),
    ensures
        start_code_len_at(a + b, j) == start_code_len_at(a, j),
{
    let d = a + b;
    assert(b[0] == start_code()[0] && b[1] == start_code()[1] && b[2] == start_code()[2] && b[3]
        == start_code()[3]);
    assert(d[j] == a[j]);
    if j + 1 < a.len() {
        assert(d[j + 1] == a[j + 1]);
    } else {
        assert(d[j + 1] == b[j + 1 - a.len()]);
    }
    if j + 2 < a.len() {
        assert(d[j + 2] == a[j + 2]);
    } else {
        assert(d[j + 2] == b[j + 2 - a.len()]);
    }
    if j + 3 < a.len() {
        assert(d[j + 3] == a[j + 3]);
    } else {
        assert(d[j + 3] == b[j + 3 - a.len()]);
    }
}

/// Behind other bytes, a start code begins where it began before.
proof fn lemma_len_at_behind(a: Seq<u8>, b: Seq<u8>, i: int)
    requires
        0 <= i,
    ensures
        start_code_len_at(a + b, a.len() + i) == start_code_len_at(b, i),
{
    let d = a + b;
    let n = a.len() as int;
    if i + 3 <= b.len() {
        assert(d[n + i] == b[i]);
        assert(d[n + i + 1] == b[i + 1]);
        assert(d[n + i + 2] == b[i + 2]);
    }
    if i + 4 <= b.len() {
        assert(d[n + i + 3] == b[i + 3]);
    }
}

/// The first start code of the second part, seen from the whole.
proof fn lemma_first_behind(a: Seq<u8>, b: Seq<u8>, i: int)
    requires
        0 <= i,
    ensures
        first_start_code(a + b, a.len() + i) == match first_start_code(b, i) {
            Some(found) => Some((a.len() + found.0, found.1)),
            None => None,
        },
    decreases b.len() - i,
{
    lemma_len_at_behind(a, b, i);
    if i + 3 <= b.len() && start_code_len_at(b, i) == 0 {
        lemma_first_behind(a, b, i + 1);
    }
}

/// The first start code of the whole, seen from within the first part: the
/// one that the first part holds, else the one that the second begins with.
proof fn lemma_first_in_front(a: Seq<u8>, b: Seq<u8>, from: int)
    requires
        start_code().is_prefix_of(b),
        0 <= from <= a.len(),
    ensures
        first_start_code(a + b, from) == match first_start_code(a, from) {
            Some(found) => Some(found),
            None => Some((a.len() as int, 4int)),
        },
    decreases a.len() - from,
{
    let d = a + b;
    assert(b[0] == start_code()[0] && b[1] == start_code()[1] && b[2] == start_code()[2] && b[3]
        == start_code()[3]);
    assert(d.len() == a.len() + b.len());
    if from == a.len() {
        lemma_len_at_behind(a, b, 0);
        assert(start_code_len_at(b, 0) == 4);
        assert(first_start_code(a, from) is None);
    } else {
        lemma_len_at_in_front(a, b, from);
        lemma_first_in_front(a, b, from + 1);
        if start_code_len_at(a, from) == 0 {
            if from + 3 > a.len() {
                lemma_none_past_end(a, from + 1);
            }
        }
    }
}

/// Less than three bytes before the end no start code is found.
pub proof fn lemma_none_past_end(a: Seq<u8>, from: int)
    requires
        from + 3 > a.len(),
    ensures
        first_start_code(a, from) is None,
{
}

/// The units of the second part, seen from the whole.
proof fn lemma_units_behind(a: Seq<u8>, b: Seq<u8>, i: int)
    requires
        0 <= i <= b.len(),
    ensures
        nal_units_from(a + b, a.len() + i) == nal_units_from(b, i),
    decreases b.len() - i,
{
    let d = a + b;
    let n = a.len() as int;
    lemma_first_behind(a, b, i);
    lemma_first_start_code(b, i);
    if first_start_code(b, i) is Some {
        let found = first_start_code(b, i)->0;
        let start = found.0 + found.1;
        lemma_first_behind(a, b, start);
        lemma_first_start_code(b, start);
        let end = unit_end(b, start);
        assert(unit_end(d, n + start) == n + end);
        assert(d.subrange(n + start, n + end) =~= b.subrange(start, end));
        if i < end < b.len() {
            lemma_units_behind(a, b, end);
        }
    }
}

/// The units of the whole from within the first part: those of the first
/// part from there on, then those of the second.
proof fn lemma_units_in_front(a: Seq<u8>, b: Seq<u8>, pos: int)
    requires
        start_code().is_prefix_of(b),
        0 <= pos <= a.len(),
    ensures
        nal_units_from(a + b, pos) == nal_units_from(a, pos) + nal_units(b),
    decreases a.len() - pos,
{
    let d = a + b;
    let n = a.len() as int;
    lemma_first_in_front(a, b, pos);
    lemma_first_start_code(a, pos);
    lemma_units_behind(a, b, 0);
    assert(d.len() == n + b.len());
    assert(b.len() >= 4);
    if first_start_code(a, pos) is Some {
        let found = first_start_code(a, pos)->0;
        let start = found.0 + found.1;
        lemma_first_in_front(a, b, start);
        lemma_first_start_code(a, start);
        let end = unit_end(a, start);
        assert(unit_end(d, start) == end);
        assert(d.subrange(start, end) =~= a.subrange(start, end));
        let head = if start < end {
            seq![a.subrange(start, end)]
        } else {
            Seq::<Seq<u8>>::empty()
        };
        if end < n {
            lemma_units_in_front(a, b, end);
            assert(head + (nal_units_from(a, end) + nal_units(b)) =~= (head + nal_units_from(
                a,
                end,
            )) + nal_units(b));
        } else {
            assert(nal_units_from(a, pos) == head);
            assert(nal_units_from(d, pos) == head + nal_units_from(d, n));
        }
    } else {
        lemma_first_in_front(a, b, n);
        assert(first_start_code(d, pos) == first_start_code(d, n));
        lemma_first_start_code(d, n);
        lemma_first_start_code(d, n + 4);
        assert(unit_end(d, n + 4) >= n + 4);
        assert(nal_units_from(d, pos) == nal_units_from(d, n));
        assert(Seq::<Seq<u8>>::empty() + nal_units(b) =~= nal_units(b));
    }
}

/// The NAL units of a stream followed by another that begins with a
/// four-byte start code are the units of the first followed by those of the
/// second.
pub proof fn lemma_units_concat(a: Seq<u8>, b: Seq<u8>)
    requires
        start_code().is_prefix_of(b),
    ensures
        nal_units(a + b) == nal_units(a) + nal_units(b),
        unit_types(a + b) =~= unit_types(a) + unit_types(b),
{
    lemma_units_in_front(a, b, 0);
}

/// Where no start code begins from `from` on, none is found.
proof fn lemma_none_found(d: Seq<u8>, from: int)
    requires
        forall|j: int| from <= j < d.len() ==> #[trigger] start_code_len_at(d, j) == 0,
    ensures
        first_start_code(d, from) is None,
    decreases d.len() - from,
{
    if 0 <= from && from + 3 <= d.len() {
        lemma_none_found(d, from + 1);
    }
}

/// A unit that holds no start code, behind a four-byte start code, is a
/// stream of that one unit.
pub proof fn lemma_single_unit(u: Seq<u8>)
    requires
        u.len() > 0,
        free_of_start_codes(u),
    ensures
        nal_units(start_code() + u) == seq![u],
        unit_types(start_code() + u) =~= seq![nal_type(u[0])],
{
    let d = start_code() + u;
    assert(d[0] == 0 && d[1] == 0 && d[2] == 0 && d[3] == 1);
    assert(start_code_len_at(d, 0) == 4);
    assert forall|j: int| 4 <= j < d.len() implies #[trigger] start_code_len_at(d, j) == 0 by {
        lemma_len_at_behind(start_code(), u, j - 4);
        assert(start_code_len_at(u, j - 4) == 0);
    }
    lemma_none_found(d, 4);
    assert(d.subrange(4, d.len() as int) =~= u);
    assert(nal_units_from(d, 0) == seq![u]);
}

/// Units that hold no start code, each behind a four-byte start code, are
/// the units of the stream that they make.
pub proof fn lemma_units_of_join(units: Seq<Seq<u8>>)
    requires
        forall|i: int|
            0 <= i < units.len() ==> (#[trigger] units[i]).len() > 0 && free_of_start_codes(
                units[i],
            ),
    ensures
        nal_units(annexb_join(units)) == units,
    decreases units.len(),
{
    if units.len() == 0 {
        lemma_none_past_end(Seq::<u8>::empty(), 0);
        assert(nal_units(Seq::<u8>::empty()) =~= units);
    } else {
        let init = units.drop_last();
        let last = units.last();
        lemma_units_of_join(init);
        lemma_single_unit(last);
        assert(start_code().is_prefix_of(start_code() + last)) by {
            assert((start_code() + last).subrange(0, 4) =~= start_code());
        }
        lemma_units_concat(annexb_join(init), start_code() + last);
        assert(annexb_join(units) =~= annexb_join(init) + (start_code() + last));
        assert(init + seq![last] =~= units);
    }
}

/// The Annex-B form of a payload that did not begin with a start code
/// splits into the units that the payload held, and every one of them
/// begins with a NAL type from 1 to 23, provided that none of them holds a
/// start code itself.
pub proof fn lemma_form_splits_into_units(p: Seq<u8>)
    requires
        !annexb_shaped(p),
        payload_units(p) is Some,
        forall|i: int|
            0 <= i < payload_units(p)->0.len() ==> free_of_start_codes(
                #[trigger] payload_units(p)->0[i],
            ),
    ensures
        nal_units(annexb_form(p)) == payload_units(p)->0,
        forall|i: int|
            0 <= i < unit_types(annexb_form(p)).len() ==> valid_nal_type(
                #[trigger] unit_types(annexb_form(p))[i],
            ),
{
    let units = payload_units(p)->0;
    lemma_payload_units_valid(p);
    lemma_units_of_join(units);
    assert(p.len() > 0);
    assert(annexb_form(p) == annexb_join(units));
}

/// No unit of a stream holds a start code.
pub proof fn lemma_units_free(d: Seq<u8>, pos: int)
    requires
        0 <= pos,
    ensures
        forall|i: int|
            0 <= i < nal_units_from(d, pos).len() ==> free_of_start_codes(
                #[trigger] nal_units_from(d, pos)[i],
            ),
    decreases d.len() - pos,
{
    lemma_first_start_code(d, pos);
    if first_start_code(d, pos) is Some {
        let found = first_start_code(d, pos)->0;
        let start = found.0 + found.1;
        let end = unit_end(d, start);
        lemma_first_start_code(d, start);
        let head = if start < end {
            seq![d.subrange(start, end)]
        } else {
            Seq::<Seq<u8>>::empty()
        };
        if start < end {
            let u = d.subrange(start, end);
            assert forall|j: int| 0 <= j < u.len() implies #[trigger] start_code_len_at(u, j)
                == 0 by {
                assert(start_code_len_at(d, start + j) == 0);
                if j + 3 <= u.len() {
                    assert(u[j] == d[start + j]);
                    assert(u[j + 1] == d[start + j + 1]);
                    assert(u[j + 2] == d[start + j + 2]);
                }
                if j + 4 <= u.len() {
                    assert(u[j + 3] == d[start + j + 3]);
                }
            }
        }
        if pos < end < d.len() {
            lemma_units_free(d, end);
            let tail = nal_units_from(d, end);
            assert forall|i: int| 0 <= i < (head + tail).len() implies free_of_start_codes(
                #[trigger] (head + tail)[i],
            ) by {
                if i >= head.len() {
                    assert((head + tail)[i] == tail[i - head.len()]);
                }
            }
        }
    }
}

/// Whether `s` is one unit of type `ty` behind a four-byte start code.
pub open spec fn single_unit_of_type(s: Seq<u8>, ty: u8) -> bool {
    start_code().is_prefix_of(s) && s.len() > 4 && free_of_start_codes(s.skip(4)) && nal_type(s[4])
        == ty
}

/// A stream that is one unit behind a start code has that unit's type alone.
pub proof fn lemma_types_of_single_unit(s: Seq<u8>, ty: u8)
    requires
        single_unit_of_type(s, ty),
    ensures
        unit_types(s) =~= seq![ty],
{
    assert(s.subrange(0, 4) == start_code());
    assert(s =~= start_code() + s.skip(4));
    lemma_single_unit(s.skip(4));
}

/// The last unit of a type among units that hold no start code is one of
/// them: it is not empty, holds no start code, and has that type.
proof fn lemma_last_unit_of_type(units: Seq<Seq<u8>>, ty: u8)
    requires
        forall|i: int|
            0 <= i < units.len() ==> (#[trigger] units[i]).len() > 0 && free_of_start_codes(
                units[i],
            ),
    ensures
        match crate::parser::nal::last_unit_of_type(units, ty) {
            Some(u) => u.len() > 0 && free_of_start_codes(u) && nal_type(u[0]) == ty,
            None => true,
        },
    decreases units.len(),
{
    if units.len() > 0 && nal_type(units.last()[0]) != ty {
        lemma_last_unit_of_type(units.drop_last(), ty);
    }
}

/// A parameter set that was taken out of a stream is one unit of its type
/// behind a four-byte start code.
pub proof fn lemma_parameter_set_is_single(d: Seq<u8>, ty: u8)
    requires
        crate::parser::nal::parameter_set(d, ty) is Some,
    ensures
        single_unit_of_type(crate::parser::nal::parameter_set(d, ty)->0, ty),
{
    lemma_units_free(d, 0);
    crate::parser::nal::lemma_units_nonempty(d, 0);
    lemma_last_unit_of_type(nal_units(d), ty);
    let u = crate::parser::nal::last_unit_of_type(nal_units(d), ty)->0;
    let s = start_code() + u;
    assert(s.subrange(0, 4) =~= start_code());
    assert(s.skip(4) =~= u);
}

} // verus!
