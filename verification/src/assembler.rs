//! Assembly of decodable access units from the video frames of one connection.

use vstd::prelude::*;
use crate::mux::video::next_count;
use crate::octets::append;
use crate::parser::annexb::{annexb_form, ensure_annexb, push_start_code, start_code};
use crate::parser::frame::{
    parse_video_packet, parsed_video, VideoFrame, FRAME_KIND_IDR, FRAME_KIND_PPS, FRAME_KIND_SPS,
};
use crate::parser::nal::{
    extract_parameter_sets, has_nal_type, opt_bytes, parameter_set, unit_types, NAL_IDR, NAL_PPS,
    NAL_SPS,
};

verus! {

/// Frames held back between two reports that the stream has not started.
pub const WAITING_REPORT_PERIOD: u64 = 120;

/// An access unit delimiter: a NAL unit of type 9 that admits every slice type.
pub open spec fn access_unit_delimiter() -> Seq<u8> {
    start_code() + seq![0x09u8, 0xF0u8]
}

/// One decodable video frame in Annex-B form.
pub struct AssembledFrame {
    pub access_unit: Vec<u8>,
    pub timestamp_ns: u64,
    pub kind: u8,
}

/// What an assembled frame holds.
pub struct AccessUnit {
    pub access_unit: Seq<u8>,
    pub timestamp_ns: u64,
    pub kind: u8,
}

impl View for AssembledFrame {
    type V = AccessUnit;

    open spec fn view(&self) -> AccessUnit {
        AccessUnit {
            access_unit: self.access_unit@,
            timestamp_ns: self.timestamp_ns,
            kind: self.kind,
        }
    }
}

/// What an optional assembled frame holds.
pub open spec fn opt_unit(f: Option<AssembledFrame>) -> Option<AccessUnit> {
    match f {
        Some(frame) => Some(frame@),
        None => None,
    }
}

/// Whether a message holds a video frame that can be worked on: it parses,
/// and its payload has an Annex-B form.
pub open spec fn usable(data: Seq<u8>) -> bool {
    parsed_video(data) is Some && parsed_video(data)->0.payload.len() > 0 && annexb_form(
        parsed_video(data)->0.payload,
    ).len() > 0
}

/// The kind of the frame that a usable message holds.
pub open spec fn kind_of(data: Seq<u8>) -> u8 {
    parsed_video(data)->0.kind
}

/// The Annex-B form of the payload that a usable message holds.
pub open spec fn annexb_of(data: Seq<u8>) -> Seq<u8> {
    annexb_form(parsed_video(data)->0.payload)
}

/// Whether a frame is a keyframe: its kind says so, or it holds an IDR slice.
pub open spec fn is_keyframe(kind: u8, annexb: Seq<u8>) -> bool {
    kind == FRAME_KIND_IDR || unit_types(annexb).contains(NAL_IDR)
}

/// Whether a frame only carries a parameter set.
pub open spec fn is_parameter_frame(kind: u8) -> bool {
    kind == FRAME_KIND_SPS || kind == FRAME_KIND_PPS
}

/// What an assembler remembers of its connection.
pub struct AssemblerState {
    /// The sequence parameter set seen last, behind a start code.
    pub last_sps: Option<Seq<u8>>,
    /// The picture parameter set seen last, behind a start code.
    pub last_pps: Option<Seq<u8>>,
    /// Whether a decodable keyframe has been seen.
    pub started: bool,
    /// Frames held back since the connection began.
    pub waiting: u64,
    /// Whether every access unit begins with a delimiter.
    pub prepend_aud: bool,
}

impl AssemblerState {
    /// The state at the beginning of a connection.
    pub open spec fn initial(prepend_aud: bool) -> AssemblerState {
        AssemblerState {
            last_sps: None,
            last_pps: None,
            started: false,
            waiting: 0,
            prepend_aud,
        }
    }

    /// A started assembler has both parameter sets.
    pub open spec fn wf(self) -> bool {
        self.started ==> self.last_sps is Some && self.last_pps is Some
    }

    /// The sequence parameter set known after a frame: from a frame of that
    /// kind its last SPS unit, or the whole frame where it holds none; from
    /// any other frame but a PPS frame its last SPS unit, if it holds one.
    pub open spec fn sps_after(self, kind: u8, annexb: Seq<u8>) -> Option<Seq<u8>> {
        if kind == FRAME_KIND_PPS {
            self.last_sps
        } else if parameter_set(annexb, NAL_SPS) is Some {
            parameter_set(annexb, NAL_SPS)
        } else if kind == FRAME_KIND_SPS {
            Some(annexb)
        } else {
            self.last_sps
        }
    }

    /// The picture parameter set known after a frame, by the same rule.
    pub open spec fn pps_after(self, kind: u8, annexb: Seq<u8>) -> Option<Seq<u8>> {
        if kind == FRAME_KIND_SPS {
            self.last_pps
        } else if parameter_set(annexb, NAL_PPS) is Some {
            parameter_set(annexb, NAL_PPS)
        } else if kind == FRAME_KIND_PPS {
            Some(annexb)
        } else {
            self.last_pps
        }
    }

    /// Whether a frame is a keyframe that finds both parameter sets known.
    pub open spec fn decodable_keyframe(self, kind: u8, annexb: Seq<u8>) -> bool {
        !is_parameter_frame(kind) && is_keyframe(kind, annexb) && self.sps_after(kind, annexb)
            is Some && self.pps_after(kind, annexb) is Some
    }

    /// Whether a frame leaves the assembler as an access unit: it is no
    /// parameter frame, and the stream has started or starts with it.
    pub open spec fn emits(self, kind: u8, annexb: Seq<u8>) -> bool {
        !is_parameter_frame(kind) && (self.started || self.decodable_keyframe(kind, annexb))
    }

    /// The parameter sets put in front of a frame: for a keyframe, each
    /// known set of which the frame holds no unit of its own.
    pub open spec fn parameter_prefix(self, kind: u8, annexb: Seq<u8>) -> Seq<u8> {
        if is_keyframe(kind, annexb) {
            (match self.sps_after(kind, annexb) {
                Some(sps) if !unit_types(annexb).contains(NAL_SPS) => sps,
                _ => Seq::empty(),
            }) + (match self.pps_after(kind, annexb) {
                Some(pps) if !unit_types(annexb).contains(NAL_PPS) => pps,
                _ => Seq::empty(),
            })
        } else {
            Seq::empty()
        }
    }

    /// The access unit built from a frame: the delimiter where asked for,
    /// the parameter sets that a keyframe lacks, the frame.
    pub open spec fn access_unit(self, kind: u8, annexb: Seq<u8>) -> Seq<u8> {
        (if self.prepend_aud {
            access_unit_delimiter()
        } else {
            Seq::empty()
        }) + self.parameter_prefix(kind, annexb) + annexb
    }

    /// The state after a message.
    pub open spec fn step(self, data: Seq<u8>) -> AssemblerState {
        if !usable(data) {
            self
        } else {
            let kind = kind_of(data);
            let annexb = annexb_of(data);
            let emits = self.emits(kind, annexb);
            AssemblerState {
                last_sps: self.sps_after(kind, annexb),
                last_pps: self.pps_after(kind, annexb),
                started: self.started || emits,
                waiting: if !is_parameter_frame(kind) && !emits {
                    next_count(self.waiting)
                } else {
                    self.waiting
                },
                prepend_aud: self.prepend_aud,
            }
        }
    }

    /// The access unit that a message yields, if any.
    pub open spec fn output(self, data: Seq<u8>) -> Option<AccessUnit> {
        if usable(data) && self.emits(kind_of(data), annexb_of(data)) {
            Some(
                AccessUnit {
                    access_unit: self.access_unit(kind_of(data), annexb_of(data)),
                    timestamp_ns: parsed_video(data)->0.timestamp_ns,
                    kind: kind_of(data),
                },
            )
        } else {
            None
        }
    }
}

/// Tracks the parameter sets of one connection, holds frames back until a
/// keyframe can be decoded, and completes keyframes with the sets they lack.
pub struct VideoFrameAssembler {
    last_sps: Option<Vec<u8>>,
    last_pps: Option<Vec<u8>>,
    started: bool,
    waiting_log_counter: u64,
    prepend_aud: bool,
}

impl View for VideoFrameAssembler {
    type V = AssemblerState;

    closed spec fn view(&self) -> AssemblerState {
        AssemblerState {
            last_sps: opt_bytes(self.last_sps),
            last_pps: opt_bytes(self.last_pps),
            started: self.started,
            waiting: self.waiting_log_counter,
            prepend_aud: self.prepend_aud,
        }
    }
}

impl VideoFrameAssembler {
    /// An assembler for a new connection.
    pub fn new(prepend_aud: bool) -> (assembler: Self)
        ensures
            assembler@ == AssemblerState::initial(prepend_aud),
    {
        Self {
            last_sps: None,
            last_pps: None,
            started: false,
            waiting_log_counter: 0,
            prepend_aud,
        }
    }

    /// Whether a decodable keyframe has been seen.
    pub fn started(&self) -> (yes: bool)
        ensures
            yes == self@.started,
    {
        self.started
    }

    /// Whether a sequence parameter set is known.
    pub fn has_sps(&self) -> (yes: bool)
        ensures
            yes == (self@.last_sps is Some),
    {
        self.last_sps.is_some()
    }

    /// Whether a picture parameter set is known.
    pub fn has_pps(&self) -> (yes: bool)
        ensures
            yes == (self@.last_pps is Some),
    {
        self.last_pps.is_some()
    }

    /// Number of frames held back so far.
    pub fn waiting_count(&self) -> (n: u64)
        ensures
            n == self@.waiting,
    {
        self.waiting_log_counter
    }

    /// Whether the frame held back last is one to report: every 120th is.
    pub fn waiting_report_due(&self) -> (yes: bool)
        ensures
            yes == (self@.waiting % WAITING_REPORT_PERIOD == 0),
    {
        self.waiting_log_counter % WAITING_REPORT_PERIOD == 0
    }

    /// Takes one video message. A frame that only carries a parameter set
    /// updates what is known and yields nothing. Any other frame updates
    /// what is known from the sets it holds; it yields nothing until a
    /// keyframe arrives with both sets known, and from then on every frame
    /// yields an access unit.
    pub fn process(&mut self, data: &[u8]) -> (r: Option<AssembledFrame>)
        ensures
            final(self)@ == old(self)@.step(data@),
            opt_unit(r) == old(self)@.output(data@),
    {
        let frame: VideoFrame = match parse_video_packet(data) {
            Some(frame) => frame,
            None => {
                return None;
            },
        };
        if frame.payload.len() == 0 {
            return None;
        }
        let annexb: Vec<u8> = ensure_annexb(frame.payload);
        if annexb.len() == 0 {
            return None;
        }
        let ghost kind = kind_of(data@);
        let ghost bytes = annexb_of(data@);
        assert(bytes == annexb@);

        if frame.kind == FRAME_KIND_SPS {
            let (sps, _) = extract_parameter_sets(annexb.as_slice());
            self.last_sps = match sps {
                Some(found) => Some(found),
                None => Some(annexb),
            };
            return None;
        }
        if frame.kind == FRAME_KIND_PPS {
            let (_, pps) = extract_parameter_sets(annexb.as_slice());
            self.last_pps = match pps {
                Some(found) => Some(found),
                None => Some(annexb),
            };
            return None;
        }
        let (sps_from_data, pps_from_data) = extract_parameter_sets(annexb.as_slice());
        if sps_from_data.is_some() {
            self.last_sps = sps_from_data;
        }
        if pps_from_data.is_some() {
            self.last_pps = pps_from_data;
        }
        let is_idr: bool = frame.kind == FRAME_KIND_IDR || has_nal_type(annexb.as_slice(), NAL_IDR);

        if !self.started {
            if !(is_idr && self.last_sps.is_some() && self.last_pps.is_some()) {
                self.waiting_log_counter = self.waiting_log_counter.wrapping_add(1);
                return None;
            }
            self.started = true;
        }
        let mut access_unit: Vec<u8> = Vec::with_capacity(annexb.len());
        if self.prepend_aud {
            push_start_code(&mut access_unit);
            access_unit.push(0x09);
            access_unit.push(0xF0);
        }
        let ghost after_aud = access_unit@;
        assert(after_aud =~= if self.prepend_aud {
            access_unit_delimiter()
        } else {
            Seq::empty()
        });
        if is_idr {
            if !has_nal_type(annexb.as_slice(), NAL_SPS) {
                match &self.last_sps {
                    Some(sps) => {
                        append(&mut access_unit, sps.as_slice());
                    },
                    None => {},
                }
            }
            if !has_nal_type(annexb.as_slice(), NAL_PPS) {
                match &self.last_pps {
                    Some(pps) => {
                        append(&mut access_unit, pps.as_slice());
                    },
                    None => {},
                }
            }
        }
        assert(access_unit@ =~= after_aud + old(self)@.parameter_prefix(kind, bytes));
        append(&mut access_unit, annexb.as_slice());
        Some(AssembledFrame { access_unit, timestamp_ns: frame.timestamp_ns, kind: frame.kind })
    }
}

impl AssemblerState {
    /// The state after a sequence of messages.
    pub open spec fn run(self, messages: Seq<Seq<u8>>) -> AssemblerState
        decreases messages.len(),
    {
        if messages.len() == 0 {
            self
        } else {
            self.run(messages.drop_last()).step(messages.last())
        }
    }

    /// Whether a message holds a keyframe that finds both parameter sets known.
    pub open spec fn opens_with(self, data: Seq<u8>) -> bool {
        usable(data) && self.decodable_keyframe(kind_of(data), annexb_of(data))
    }
}

/// The access unit that message `i` of a sequence yields, if any.
pub open spec fn output_at(state: AssemblerState, messages: Seq<Seq<u8>>, i: int) -> Option<
    AccessUnit,
> {
    state.run(messages.take(i)).output(messages[i])
}

/// A message leaves a started assembler started and with both parameter sets.
pub proof fn lemma_step_keeps_wf(state: AssemblerState, data: Seq<u8>)
    requires
        state.wf(),
    ensures
        state.step(data).wf(),
        state.started ==> state.step(data).started,
{
}

/// An assembler that has started has seen a keyframe with both parameter
/// sets known.
pub proof fn lemma_started_after_keyframe(prepend_aud: bool, messages: Seq<Seq<u8>>)
    requires
        AssemblerState::initial(prepend_aud).run(messages).started,
    ensures
        exists|j: int|
            0 <= j < messages.len() && AssemblerState::initial(prepend_aud).run(
                #[trigger] messages.take(j),
            ).opens_with(messages[j]),
    decreases messages.len(),
{
    let first = AssemblerState::initial(prepend_aud);
    if messages.len() > 0 {
        let before = messages.drop_last();
        let n = messages.len() - 1;
        assert(before =~= messages.take(n));
        if first.run(before).started {
            lemma_started_after_keyframe(prepend_aud, before);
            let j = choose|j: int|
                0 <= j < before.len() && first.run(#[trigger] before.take(j)).opens_with(before[j]);
            assert(before.take(j) =~= messages.take(j));
            assert(first.run(messages.take(j)).opens_with(messages[j]));
        } else {
            assert(first.run(messages.take(n)).opens_with(messages[n]));
        }
    }
}

/// No access unit leaves the assembler before a keyframe has been seen that
/// found both parameter sets known: whenever message `i` of a connection
/// yields an access unit, that message or one before it held such a
/// keyframe.
pub proof fn lemma_no_unit_before_keyframe(prepend_aud: bool, messages: Seq<Seq<u8>>, i: int)
    requires
        0 <= i < messages.len(),
        output_at(AssemblerState::initial(prepend_aud), messages, i) is Some,
    ensures
        exists|j: int|
            0 <= j <= i && AssemblerState::initial(prepend_aud).run(
                #[trigger] messages.take(j),
            ).opens_with(messages[j]),
{
    let first = AssemblerState::initial(prepend_aud);
    let before = messages.take(i);
    if first.run(before).started {
        lemma_started_after_keyframe(prepend_aud, before);
        let j = choose|j: int|
            0 <= j < before.len() && first.run(#[trigger] before.take(j)).opens_with(before[j]);
        assert(before.take(j) =~= messages.take(j));
        assert(first.run(messages.take(j)).opens_with(messages[j]));
    } else {
        assert(first.run(messages.take(i)).opens_with(messages[i]));
    }
}

/// The first access unit of a connection is a keyframe's, and it begins,
/// behind the delimiter where one is asked for, with each parameter set
/// that the frame does not hold itself.
pub proof fn lemma_first_unit_is_keyframe(state: AssemblerState, data: Seq<u8>)
    requires
        !state.started,
        state.output(data) is Some,
    ensures
        is_keyframe(kind_of(data), annexb_of(data)),
        state.step(data).last_sps is Some,
        state.step(data).last_pps is Some,
        state.step(data).started,
{
}

} // verus!
