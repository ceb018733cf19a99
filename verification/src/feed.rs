//! What each upstream connection does with the messages it receives.

use vstd::prelude::*;
use core::ops::ControlFlow;
use crate::assembler::{
    AssembledFrame, AssemblerState, VideoFrameAssembler, WAITING_REPORT_PERIOD,
};
use crate::mux::av::{opt_sample, AvSample, Sample};
use crate::mux::pes::{ns_to_90k, ticks_90k};
use crate::mux::video::{next_count, MpegTsMuxer, VideoMuxState};
use crate::octets::append;
use crate::parser::aac::AacConfig;
use crate::parser::frame::{parse_audio_packet, parsed_audio, AUDIO_KIND_AAC, AUDIO_KIND_ASC};

verus! {

/// How an attempt to queue a sample for the multiplexer ended.
#[derive(Clone, Copy, Debug, PartialEq, Eq, Structural)]
pub enum SendOutcome {
    /// The sample is queued.
    Sent,
    /// The queue is full: the sample is dropped.
    Full,
    /// The multiplexer is gone.
    Closed,
}

/// Whether a connection goes on after an attempt to queue a sample: it stops
/// when the multiplexer is gone, and a full queue only costs the sample.
pub fn after_send(outcome: SendOutcome) -> (flow: ControlFlow<()>)
    ensures
        flow == (if outcome == SendOutcome::Closed {
            ControlFlow::<()>::Break(())
        } else {
            ControlFlow::<()>::Continue(())
        }),
{
    match outcome {
        SendOutcome::Closed => ControlFlow::Break(()),
        _ => ControlFlow::Continue(()),
    }
}

// ---------------------------------------------------------------------------
// Video to transport stream
// ---------------------------------------------------------------------------

/// What the video connection of a video-only relay remembers.
pub struct VideoTsState {
    pub assembler: AssemblerState,
    pub muxer: VideoMuxState,
}

impl VideoTsState {
    /// The state at the beginning of a connection.
    pub open spec fn initial() -> VideoTsState {
        VideoTsState {
            assembler: AssemblerState::initial(false),
            muxer: VideoMuxState::initial(),
        }
    }

    /// The transport packets that a message yields: those of the access unit
    /// that the assembler makes of it, under the frame's timestamp in 90 kHz
    /// ticks as the multiplexer corrects it.
    pub open spec fn output(self, data: Seq<u8>) -> Option<Seq<u8>> {
        match self.assembler.output(data) {
            Some(unit) => Some(
                self.muxer.output(unit.access_unit, ticks_90k(unit.timestamp_ns)),
            ),
            None => None,
        }
    }

    /// The state after a message.
    pub open spec fn step(self, data: Seq<u8>) -> VideoTsState {
        VideoTsState {
            assembler: self.assembler.step(data),
            muxer: match self.assembler.output(data) {
                Some(unit) => self.muxer.advance(
                    unit.access_unit,
                    ticks_90k(unit.timestamp_ns),
                ),
                None => self.muxer,
            },
        }
    }
}

/// The video connection of a video-only relay: frames in, transport packets out.
pub struct VideoTsFeed {
    assembler: VideoFrameAssembler,
    muxer: MpegTsMuxer,
}

impl View for VideoTsFeed {
    type V = VideoTsState;

    closed spec fn view(&self) -> VideoTsState {
        VideoTsState { assembler: self.assembler@, muxer: self.muxer@ }
    }
}

impl VideoTsFeed {
    /// A feed for a connection that is about to be made.
    pub fn new() -> (feed: Self)
        ensures
            feed@ == VideoTsState::initial(),
    {
        Self { assembler: VideoFrameAssembler::new(false), muxer: MpegTsMuxer::new() }
    }

    /// Starts afresh on a new connection: assembler and multiplexer forget
    /// what they knew.
    pub fn on_connected(&mut self)
        ensures
            final(self)@ == VideoTsState::initial(),
    {
        self.assembler = VideoFrameAssembler::new(false);
        self.muxer = MpegTsMuxer::new();
    }

    /// Whether a decodable keyframe has been seen on this connection.
    pub fn started(&self) -> (yes: bool)
        ensures
            yes == self@.assembler.started,
    {
        self.assembler.started()
    }

    /// Number of frames held back on this connection so far.
    pub fn waiting_count(&self) -> (n: u64)
        ensures
            n == self@.assembler.waiting,
    {
        self.assembler.waiting_count()
    }

    /// Whether the frame held back last is one to report: every 120th is.
    pub fn waiting_report_due(&self) -> (yes: bool)
        ensures
            yes == (self@.assembler.waiting % WAITING_REPORT_PERIOD == 0),
    {
        self.assembler.waiting_report_due()
    }

    /// Takes one message and returns the transport packets to broadcast.
    pub fn on_binary(&mut self, data: &[u8]) -> (chunk: Option<Vec<u8>>)
        ensures
            final(self)@ == old(self)@.step(data@),
            match chunk {
                Some(bytes) => old(self)@.output(data@) == Some(bytes@),
                None => old(self)@.output(data@) is None,
            },
    {
        match self.assembler.process(data) {
            Some(frame) => {
                let pts_90k: u64 = ns_to_90k(frame.timestamp_ns);
                Some(self.muxer.push_video_access_unit(frame.access_unit.as_slice(), pts_90k))
            },
            None => None,
        }
    }
}

// ---------------------------------------------------------------------------
// Video to access units
// ---------------------------------------------------------------------------

/// Access units reported one by one at the beginning of a connection.
pub const DETAILED_UNITS: u64 = 8;

/// Access units between two reports of the count.
pub const UNIT_REPORT_PERIOD: u64 = 300;

/// What is reported of an access unit that was sent.
#[derive(Clone, Copy, Debug, PartialEq, Eq, Structural)]
pub enum UnitReport {
    /// Kind, size, NAL types and first bytes of the unit.
    Detail,
    /// The number of units sent so far.
    Count,
    /// Nothing.
    Quiet,
}

/// What is reported of the `sent`-th access unit of a connection: the first
/// eight in detail, then the count at every 300th.
pub open spec fn unit_report(sent: u64) -> UnitReport {
    if sent <= DETAILED_UNITS {
        UnitReport::Detail
    } else if sent % UNIT_REPORT_PERIOD == 0 {
        UnitReport::Count
    } else {
        UnitReport::Quiet
    }
}

/// What the video connection of a byte-stream relay remembers.
pub struct AnnexbState {
    pub assembler: AssemblerState,
    /// Access units sent on this connection.
    pub sent: u64,
}

impl AnnexbState {
    /// The state at the beginning of a connection.
    pub open spec fn initial() -> AnnexbState {
        AnnexbState { assembler: AssemblerState::initial(true), sent: 0 }
    }

    /// The state after a message.
    pub open spec fn step(self, data: Seq<u8>) -> AnnexbState {
        AnnexbState {
            assembler: self.assembler.step(data),
            sent: if self.assembler.output(data) is Some {
                next_count(self.sent)
            } else {
                self.sent
            },
        }
    }
}

/// The video connection of a byte-stream relay: frames in, access units out,
/// each behind an access unit delimiter.
pub struct AnnexbFeed {
    assembler: VideoFrameAssembler,
    au_sent: u64,
}

impl View for AnnexbFeed {
    type V = AnnexbState;

    closed spec fn view(&self) -> AnnexbState {
        AnnexbState { assembler: self.assembler@, sent: self.au_sent }
    }
}

impl AnnexbFeed {
    /// A feed for a connection that is about to be made.
    pub fn new() -> (feed: Self)
        ensures
            feed@ == AnnexbState::initial(),
    {
        Self { assembler: VideoFrameAssembler::new(true), au_sent: 0 }
    }

    /// Starts afresh on a new connection.
    pub fn on_connected(&mut self)
        ensures
            final(self)@ == AnnexbState::initial(),
    {
        self.assembler = VideoFrameAssembler::new(true);
        self.au_sent = 0;
    }

    /// Whether a decodable keyframe has been seen on this connection.
    pub fn started(&self) -> (yes: bool)
        ensures
            yes == self@.assembler.started,
    {
        self.assembler.started()
    }

    /// Number of frames held back on this connection so far.
    pub fn waiting_count(&self) -> (n: u64)
        ensures
            n == self@.assembler.waiting,
    {
        self.assembler.waiting_count()
    }

    /// Whether the frame held back last is one to report: every 120th is.
    pub fn waiting_report_due(&self) -> (yes: bool)
        ensures
            yes == (self@.assembler.waiting % WAITING_REPORT_PERIOD == 0),
    {
        self.assembler.waiting_report_due()
    }

    /// Takes one message and returns the access unit to send.
    pub fn on_binary(&mut self, data: &[u8]) -> (unit: Option<AssembledFrame>)
        ensures
            final(self)@ == old(self)@.step(data@),
            crate::assembler::opt_unit(unit) == old(self)@.assembler.output(data@),
    {
        let unit: Option<AssembledFrame> = self.assembler.process(data);
        if unit.is_some() {
            self.au_sent = self.au_sent.wrapping_add(1);
        }
        unit
    }

    /// Access units sent on this connection.
    pub fn sent(&self) -> (sent: u64)
        ensures
            sent == self@.sent,
    {
        self.au_sent
    }

    /// What to report of the access unit sent last.
    pub fn report(&self) -> (report: UnitReport)
        ensures
            report == unit_report(self@.sent),
    {
        if self.au_sent <= DETAILED_UNITS {
            UnitReport::Detail
        } else if self.au_sent % UNIT_REPORT_PERIOD == 0 {
            UnitReport::Count
        } else {
            UnitReport::Quiet
        }
    }
}

// ---------------------------------------------------------------------------
// Video to samples
// ---------------------------------------------------------------------------

/// The sample that a message yields on the video connection of a relay for
/// video and audio.
pub open spec fn video_sample(assembler: AssemblerState, data: Seq<u8>) -> Option<Sample> {
    match assembler.output(data) {
        Some(unit) => Some(
            Sample::Video { timestamp_ns: unit.timestamp_ns, annexb: unit.access_unit },
        ),
        None => None,
    }
}

/// The video connection of a relay for video and audio: frames in, samples
/// for the multiplexer out.
pub struct AvVideoFeed {
    assembler: VideoFrameAssembler,
}

impl View for AvVideoFeed {
    type V = AssemblerState;

    closed spec fn view(&self) -> AssemblerState {
        self.assembler@
    }
}

impl AvVideoFeed {
    /// A feed for a connection that is about to be made.
    pub fn new() -> (feed: Self)
        ensures
            feed@ == AssemblerState::initial(true),
    {
        Self { assembler: VideoFrameAssembler::new(true) }
    }

    /// Starts afresh on a new connection.
    pub fn on_connected(&mut self)
        ensures
            final(self)@ == AssemblerState::initial(true),
    {
        self.assembler = VideoFrameAssembler::new(true);
    }

    /// Whether a decodable keyframe has been seen on this connection.
    pub fn started(&self) -> (yes: bool)
        ensures
            yes == self@.started,
    {
        self.assembler.started()
    }

    /// Number of frames held back on this connection so far.
    pub fn waiting_count(&self) -> (n: u64)
        ensures
            n == self@.waiting,
    {
        self.assembler.waiting_count()
    }

    /// Whether the frame held back last is one to report: every 120th is.
    pub fn waiting_report_due(&self) -> (yes: bool)
        ensures
            yes == (self@.waiting % WAITING_REPORT_PERIOD == 0),
    {
        self.assembler.waiting_report_due()
    }

    /// Takes one message and returns the sample to queue.
    pub fn on_binary(&mut self, data: &[u8]) -> (sample: Option<AvSample>)
        ensures
            final(self)@ == old(self)@.step(data@),
            opt_sample(sample) == video_sample(old(self)@, data@),
    {
        match self.assembler.process(data) {
            Some(frame) => Some(
                AvSample::Video { timestamp_ns: frame.timestamp_ns, annexb: frame.access_unit },
            ),
            None => None,
        }
    }
}

// ---------------------------------------------------------------------------
// Audio to samples
// ---------------------------------------------------------------------------

/// Audio frames reported one by one at the beginning of a connection.
pub const DETAILED_AUDIO_FRAMES: u64 = 4;

/// What the audio connection remembers.
pub struct AudioState {
    /// The configuration in force.
    pub config: AacConfig,
    /// Audio frames sent on this connection.
    pub sent: u64,
}

impl AudioState {
    /// The state at the beginning of a connection.
    pub open spec fn initial() -> AudioState {
        AudioState { config: AacConfig::standard(), sent: 0 }
    }

    /// Whether a message holds an audio frame with a payload.
    pub open spec fn usable(data: Seq<u8>) -> bool {
        parsed_audio(data) is Some && parsed_audio(data)->0.payload.len() > 0
    }

    /// The configuration that a message announces: that of a valid
    /// AudioSpecificConfig in a frame of that kind.
    pub open spec fn announced(data: Seq<u8>) -> Option<AacConfig> {
        if Self::usable(data) && parsed_audio(data)->0.kind == AUDIO_KIND_ASC {
            AacConfig::of_asc(parsed_audio(data)->0.payload)
        } else {
            None
        }
    }

    /// Whether a message holds raw AAC.
    pub open spec fn carries_audio(data: Seq<u8>) -> bool {
        Self::usable(data) && parsed_audio(data)->0.kind == AUDIO_KIND_AAC
    }

    /// The sample that a message yields: its AAC payload behind the ADTS
    /// header of the configuration in force.
    pub open spec fn output(self, data: Seq<u8>) -> Option<Sample> {
        if Self::carries_audio(data) {
            let frame = parsed_audio(data)->0;
            Some(
                Sample::Audio {
                    timestamp_ns: frame.timestamp_ns,
                    adts_frame: self.config.adts_header_bytes(frame.payload.len() as int)
                        + frame.payload,
                },
            )
        } else {
            None
        }
    }

    /// The state after a message: a valid AudioSpecificConfig replaces the
    /// configuration, and raw AAC counts as sent.
    pub open spec fn step(self, data: Seq<u8>) -> AudioState {
        if !Self::usable(data) {
            self
        } else if parsed_audio(data)->0.kind == AUDIO_KIND_ASC {
            match Self::announced(data) {
                Some(config) => AudioState { config, sent: self.sent },
                None => self,
            }
        } else if parsed_audio(data)->0.kind == AUDIO_KIND_AAC {
            AudioState { config: self.config, sent: next_count(self.sent) }
        } else {
            self
        }
    }
}

/// Reads the configuration that an audio message announces, if it
/// announces one.
pub fn announced_config(data: &[u8]) -> (config: Option<AacConfig>)
    ensures
        config == AudioState::announced(data@),
{
    match parse_audio_packet(data) {
        Some(frame) => {
            if frame.payload.len() > 0 && frame.kind == AUDIO_KIND_ASC {
                AacConfig::from_asc(frame.payload)
            } else {
                None
            }
        },
        None => None,
    }
}

/// The audio connection of a relay for video and audio: frames in, ADTS
/// samples for the multiplexer out.
pub struct AvAudioFeed {
    aac_config: AacConfig,
    sent_audio: u64,
}

impl View for AvAudioFeed {
    type V = AudioState;

    closed spec fn view(&self) -> AudioState {
        AudioState { config: self.aac_config, sent: self.sent_audio }
    }
}

impl AvAudioFeed {
    /// A feed for a connection that is about to be made.
    pub fn new() -> (feed: Self)
        ensures
            feed@ == AudioState::initial(),
    {
        Self { aac_config: AacConfig::default(), sent_audio: 0 }
    }

    /// Starts afresh on a new connection: the configuration falls back to
    /// the standard one until the stream announces its own again.
    pub fn on_connected(&mut self)
        ensures
            final(self)@ == AudioState::initial(),
    {
        self.aac_config = AacConfig::default();
        self.sent_audio = 0;
    }

    /// The configuration in force.
    pub fn config(&self) -> (config: AacConfig)
        ensures
            config == self@.config,
    {
        self.aac_config
    }

    /// Audio frames sent on this connection.
    pub fn sent(&self) -> (sent: u64)
        ensures
            sent == self@.sent,
    {
        self.sent_audio
    }

    /// Whether the audio frame sent last is one to report: the first four are.
    pub fn report_due(&self) -> (yes: bool)
        ensures
            yes == (self@.sent <= DETAILED_AUDIO_FRAMES),
    {
        self.sent_audio <= DETAILED_AUDIO_FRAMES
    }

    /// Takes one message and returns the sample to queue.
    pub fn on_binary(&mut self, data: &[u8]) -> (sample: Option<AvSample>)
        ensures
            final(self)@ == old(self)@.step(data@),
            opt_sample(sample) == old(self)@.output(data@),
    {
        let frame = match parse_audio_packet(data) {
            Some(frame) => frame,
            None => {
                return None;
            },
        };
        if frame.payload.len() == 0 {
            return None;
        }
        if frame.kind == AUDIO_KIND_ASC {
            match AacConfig::from_asc(frame.payload) {
                Some(config) => {
                    self.aac_config = config;
                },
                None => {},
            }
            return None;
        }
        if frame.kind != AUDIO_KIND_AAC {
            return None;
        }
        let total: usize = data.len();
        let header: [u8; 7] = self.aac_config.adts_header(frame.payload.len());
        let mut adts_frame: Vec<u8> = Vec::with_capacity(7);
        append(&mut adts_frame, header.as_slice());
        append(&mut adts_frame, frame.payload);
        self.sent_audio = self.sent_audio.wrapping_add(1);
        Some(AvSample::Audio { timestamp_ns: frame.timestamp_ns, adts_frame })
    }
}

} // verus!
