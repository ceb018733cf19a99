//! What the access unit of a keyframe holds, unit by unit.

use vstd::prelude::*;
use crate::assembler::{
    access_unit_delimiter, annexb_of, is_keyframe, kind_of, usable, AssemblerState,
};
use crate::parser::annexb::start_code;
use crate::parser::frame::{FRAME_KIND_PPS, FRAME_KIND_SPS};
use crate::parser::nal::{parameter_set, unit_types, NAL_PPS, NAL_SPS};
use crate::parser::split::{
    lemma_none_past_end, lemma_parameter_set_is_single, lemma_types_of_single_unit,
    lemma_units_concat, single_unit_of_type,
};

verus! {

/// NAL unit type of an access unit delimiter.
pub const NAL_AUD: u8 = 9;

impl AssemblerState {
    /// Whether each parameter set that is known is one unit of its type
    /// behind a four-byte start code.
    pub open spec fn sets_single(self) -> bool {
        (self.last_sps is Some ==> single_unit_of_type(self.last_sps->0, NAL_SPS)) && (
        self.last_pps is Some ==> single_unit_of_type(self.last_pps->0, NAL_PPS))
    }

    /// Whether a message is a parameter frame that holds no unit of the
    /// type that its kind announces, so that the whole frame stands in for
    /// the parameter set.
    pub open spec fn stands_in(data: Seq<u8>) -> bool {
        usable(data) && ((kind_of(data) == FRAME_KIND_SPS && parameter_set(annexb_of(data), NAL_SPS)
            is None) || (kind_of(data) == FRAME_KIND_PPS && parameter_set(annexb_of(data), NAL_PPS)
            is None))
    }

    /// The types of the units that are put in front of a frame.
    pub open spec fn prefix_types(self, kind: u8, annexb: Seq<u8>) -> Seq<u8> {
        (if self.prepend_aud {
            seq![NAL_AUD]
        } else {
            Seq::empty()
        }) + (if is_keyframe(kind, annexb) && self.sps_after(kind, annexb) is Some
            && !unit_types(annexb).contains(NAL_SPS) {
            seq![NAL_SPS]
        } else {
            Seq::empty()
        }) + (if is_keyframe(kind, annexb) && self.pps_after(kind, annexb) is Some
            && !unit_types(annexb).contains(NAL_PPS) {
            seq![NAL_PPS]
        } else {
            Seq::empty()
        })
    }
}

/// A message leaves the known parameter sets single units of their types,
/// unless it is a parameter frame that holds no unit of its type.
pub proof fn lemma_step_keeps_sets_single(state: AssemblerState, data: Seq<u8>)
    requires
        state.sets_single(),
        !AssemblerState::stands_in(data),
    ensures
        state.step(data).sets_single(),
{
    if usable(data) {
        let annexb = annexb_of(data);
        if parameter_set(annexb, NAL_SPS) is Some {
            lemma_parameter_set_is_single(annexb, NAL_SPS);
        }
        if parameter_set(annexb, NAL_PPS) is Some {
            lemma_parameter_set_is_single(annexb, NAL_PPS);
        }
    }
}

/// The delimiter is one unit of type 9.
pub proof fn lemma_delimiter_is_single()
    ensures
        single_unit_of_type(access_unit_delimiter(), NAL_AUD),
        unit_types(access_unit_delimiter()) =~= seq![NAL_AUD],
{
    let body = seq![0x09u8, 0xF0u8];
    let s = access_unit_delimiter();
    assert(s.subrange(0, 4) =~= start_code());
    assert(s.skip(4) =~= body);
    assert forall|j: int| 0 <= j < body.len() implies #[trigger] crate::parser::nal::start_code_len_at(
        body,
        j,
    ) == 0 by {}
    lemma_types_of_single_unit(s, NAL_AUD);
}

/// The types of a stream followed by one that is empty or a single unit.
proof fn lemma_types_with_optional_unit(a: Seq<u8>, part: Seq<u8>, ty: u8)
    requires
        part.len() == 0 || single_unit_of_type(part, ty),
    ensures
        unit_types(a + part) =~= unit_types(a) + (if part.len() == 0 {
            Seq::<u8>::empty()
        } else {
            seq![ty]
        }),
{
    if part.len() == 0 {
        assert(a + part =~= a);
    } else {
        lemma_units_concat(a, part);
        lemma_types_of_single_unit(part, ty);
    }
}

/// The access unit of a frame consists of the units put in front of it,
/// then the frame's own units in their order: the delimiter where one is
/// asked for and, for a keyframe, one sequence parameter set and one picture
/// parameter set, each only where the frame holds none of its own. This
/// holds where the frame's Annex-B form begins with a four-byte start code
/// and each known parameter set is one unit of its type.
pub proof fn lemma_access_unit_layout(state: AssemblerState, kind: u8, annexb: Seq<u8>)
    requires
        start_code().is_prefix_of(annexb),
        (AssemblerState {
            last_sps: state.sps_after(kind, annexb),
            last_pps: state.pps_after(kind, annexb),
            ..state
        }).sets_single(),
    ensures
        unit_types(state.access_unit(kind, annexb)) =~= state.prefix_types(kind, annexb)
            + unit_types(annexb),
{
    let aud = if state.prepend_aud {
        access_unit_delimiter()
    } else {
        Seq::<u8>::empty()
    };
    let key = is_keyframe(kind, annexb);
    let sps = match state.sps_after(kind, annexb) {
        Some(s) if key && !unit_types(annexb).contains(NAL_SPS) => s,
        _ => Seq::<u8>::empty(),
    };
    let pps = match state.pps_after(kind, annexb) {
        Some(p) if key && !unit_types(annexb).contains(NAL_PPS) => p,
        _ => Seq::<u8>::empty(),
    };
    lemma_delimiter_is_single();
    assert(unit_types(Seq::<u8>::empty()) =~= Seq::<u8>::empty()) by {
        lemma_none_past_end(Seq::<u8>::empty(), 0);
    }
    lemma_types_with_optional_unit(Seq::<u8>::empty(), aud, NAL_AUD);
    assert(Seq::<u8>::empty() + aud =~= aud);
    lemma_types_with_optional_unit(aud, sps, NAL_SPS);
    lemma_types_with_optional_unit(aud + sps, pps, NAL_PPS);
    lemma_units_concat(aud + sps + pps, annexb);
    assert(state.parameter_prefix(kind, annexb) =~= sps + pps);
    assert(state.access_unit(kind, annexb) =~= (aud + sps + pps) + annexb);
}

/// The access unit of a keyframe that holds neither parameter set itself
/// has exactly one sequence parameter set and exactly one picture parameter
/// set, in that order and in front of every unit of the frame.
pub proof fn lemma_keyframe_sets_come_first(state: AssemblerState, data: Seq<u8>)
    requires
        state.output(data) is Some,
        state.wf(),
        is_keyframe(kind_of(data), annexb_of(data)),
        !unit_types(annexb_of(data)).contains(NAL_SPS),
        !unit_types(annexb_of(data)).contains(NAL_PPS),
        start_code().is_prefix_of(annexb_of(data)),
        state.step(data).sets_single(),
    ensures
        unit_types(state.output(data)->0.access_unit) =~= (if state.prepend_aud {
            seq![NAL_AUD]
        } else {
            Seq::<u8>::empty()
        }) + seq![NAL_SPS, NAL_PPS] + unit_types(annexb_of(data)),
{
    let kind = kind_of(data);
    let annexb = annexb_of(data);
    lemma_access_unit_layout(state, kind, annexb);
    assert(state.sps_after(kind, annexb) is Some);
    assert(state.pps_after(kind, annexb) is Some);
}

} // verus!
