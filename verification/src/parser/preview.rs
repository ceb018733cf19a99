//! Short renderings of a payload for diagnostics.

use vstd::prelude::*;
use vstd::string::*;
use crate::parser::annexb::nal_type_of;
use crate::parser::nal::{annexb_nals, lemma_units_nonempty, nal_units, unit_types};
use crate::text::{decimal, hex_digit, hex_pair, push_decimal};

verus! {

/// Bytes as pairs of hexadecimal digits with a blank between two pairs.
pub open spec fn hex_text(bytes: Seq<u8>) -> Seq<char>
    decreases bytes.len(),
{
    if bytes.len() == 0 {
        Seq::empty()
    } else if bytes.len() == 1 {
        hex_pair(bytes[0])
    } else {
        hex_text(bytes.drop_last()) + seq![' '] + hex_pair(bytes.last())
    }
}

/// The first `max_len` items of `s`, or all of them where there are fewer.
pub open spec fn head<T>(s: Seq<T>, max_len: int) -> Seq<T> {
    if max_len < s.len() {
        s.take(max_len)
    } else {
        s
    }
}

/// Renders the first `max_len` bytes of `data` in hexadecimal.
pub fn hex_prefix(data: &[u8], max_len: usize) -> (text: String)
    ensures
        text@ == hex_text(head(data@, max_len as int)),
{
    let n: usize = if max_len < data.len() {
        max_len
    } else {
        data.len()
    };
    let mut text: String = String::new();
    let mut i: usize = 0;
    proof {
        assert(data@.take(0) =~= Seq::<u8>::empty());
    }
    while i < n
        invariant
            i <= n <= data@.len(),
            text@ == hex_text(data@.take(i as int)),
        decreases n - i,
    {
        if i > 0 {
            text.append(" ");
        }
        let b: u8 = data[i];
        text.append(hex_digit(b / 16));
        text.append(hex_digit(b % 16));
        proof {
            let now = data@.take(i + 1);
            assert(now.drop_last() =~= data@.take(i as int));
            assert(now.last() == b);
            reveal_strlit(" ");
            assert(" "@ =~= seq![' ']);
            assert(text@ =~= hex_text(now));
        }
        i += 1;
    }
    proof {
        assert(data@.take(n as int) =~= head(data@, max_len as int));
    }
    text
}

/// NAL unit types in decimal with a comma between two of them.
pub open spec fn types_joined(types: Seq<u8>) -> Seq<char>
    decreases types.len(),
{
    if types.len() == 0 {
        Seq::empty()
    } else if types.len() == 1 {
        decimal(types[0] as nat)
    } else {
        types_joined(types.drop_last()) + seq![','] + decimal(types.last() as nat)
    }
}

/// NAL unit types as text, or a dash where there are none.
pub open spec fn types_text(types: Seq<u8>) -> Seq<char> {
    if types.len() == 0 {
        seq!['-']
    } else {
        types_joined(types)
    }
}

/// Renders the types of the first `max_nals` NAL units of an Annex-B stream.
pub fn nal_types_preview(data: &[u8], max_nals: usize) -> (text: String)
    ensures
        text@ == types_text(head(unit_types(data@), max_nals as int)),
{
    let nals: Vec<&[u8]> = annexb_nals(data);
    let n: usize = if max_nals < nals.len() {
        max_nals
    } else {
        nals.len()
    };
    let ghost types = unit_types(data@);
    let mut text: String = String::new();
    let mut i: usize = 0;
    proof {
        lemma_units_nonempty(data@, 0);
        assert(types.take(0) =~= Seq::<u8>::empty());
    }
    while i < n
        invariant
            types == unit_types(data@),
            i <= n <= nals@.len() == nal_units(data@).len(),
            forall|k: int| 0 <= k < nals@.len() ==> (#[trigger] nals@[k])@ == nal_units(data@)[k],
            forall|k: int|
                0 <= k < nal_units(data@).len() ==> (#[trigger] nal_units(data@)[k]).len() > 0,
            text@ == types_joined(types.take(i as int)),
        decreases n - i,
    {
        let nal: &[u8] = nals[i];
        assert(nal@ == nal_units(data@)[i as int]);
        if nal.len() > 0 {
            if i > 0 {
                text.append(",");
            }
            push_decimal(&mut text, nal_type_of(nal[0]) as u64);
        }
        proof {
            let now = types.take(i + 1);
            assert(now.drop_last() =~= types.take(i as int));
            assert(now.last() == types[i as int]);
            reveal_strlit(",");
            assert(","@ =~= seq![',']);
            assert(text@ =~= types_joined(now));
        }
        i += 1;
    }
    proof {
        assert(types.take(n as int) =~= head(types, max_nals as int));
    }
    if n == 0 {
        text.append("-");
        proof {
            reveal_strlit("-");
        }
        assert(text@ =~= seq!['-']);
    }
    text
}

} // verus!
