//! Multiplexer for a program that carries video and audio on one clock.

use vstd::prelude::*;
use crate::mux::clock::{correct_pts, corrected_offset, corrected_pts, shift_needed};
use crate::mux::laws::{is_ts_stream, lemma_sample_output_is_ts_stream};
use crate::mux::packet::{
    cc_after, next_cc, packetize_pes, pes_ts_packets, ts_packet_count, PID_AUDIO, PID_PAT, PID_PMT,
    PID_VIDEO,
};
use crate::mux::pes::{
    build_aac_pes, build_h264_pes, ns_to_90k, pes_packet, ticks_90k, STREAM_ID_AUDIO,
    STREAM_ID_VIDEO,
};
use crate::mux::tables::{av_tables, build_pat_section, build_pmt_section_av, packetize_psi};
use crate::mux::video::{next_count, VIDEO_TABLE_PERIOD};
use crate::octets::append;

verus! {

/// Frames of audio between two refreshes of the program tables.
pub const AUDIO_TABLE_PERIOD: u64 = 120;

/// What a multiplexer for video and audio remembers between samples.
pub struct AvMuxState {
    pub cc_pat: u8,
    pub cc_pmt: u8,
    pub cc_video: u8,
    pub cc_audio: u8,
    /// Timestamp of the first sample, the zero of the presentation clock.
    pub origin_ns: Option<u64>,
    /// Ticks added to every timestamp since the last correction.
    pub pts_offset_90k: u64,
    /// The presentation timestamp handed out last.
    pub last_pts_90k: Option<u64>,
    pub video_count: u64,
    pub audio_count: u64,
}

impl AvMuxState {
    /// The state of a multiplexer that has seen no sample.
    pub open spec fn initial() -> AvMuxState {
        AvMuxState {
            cc_pat: 0,
            cc_pmt: 0,
            cc_video: 0,
            cc_audio: 0,
            origin_ns: None,
            pts_offset_90k: 0,
            last_pts_90k: None,
            video_count: 0,
            audio_count: 0,
        }
    }

    /// The zero of the presentation clock for a sample stamped `timestamp_ns`.
    pub open spec fn origin_for(self, timestamp_ns: u64) -> u64 {
        match self.origin_ns {
            Some(origin) => origin,
            None => timestamp_ns,
        }
    }

    /// Ticks between the clock's zero and `timestamp_ns`, before any correction.
    pub open spec fn raw_pts(self, timestamp_ns: u64) -> u64 {
        ticks_90k(timestamp_ns.saturating_sub(self.origin_for(timestamp_ns)))
    }

    /// Whether a sample stamped `timestamp_ns` trails the last timestamp by
    /// more than the tolerance, so that the timebase has to move.
    pub open spec fn needs_shift(self, timestamp_ns: u64) -> bool {
        shift_needed(self.raw_pts(timestamp_ns), self.pts_offset_90k, self.last_pts_90k)
    }

    /// The offset in force for a sample stamped `timestamp_ns`: after a shift,
    /// the one that puts the sample the tolerance after the last.
    pub open spec fn offset_for(self, timestamp_ns: u64) -> u64 {
        corrected_offset(self.raw_pts(timestamp_ns), self.pts_offset_90k, self.last_pts_90k)
    }

    /// The presentation timestamp of a sample stamped `timestamp_ns`: its
    /// ticks on the corrected timebase, or one tick after the last timestamp
    /// where that would not be later.
    pub open spec fn pts_for(self, timestamp_ns: u64) -> u64 {
        corrected_pts(self.raw_pts(timestamp_ns), self.pts_offset_90k, self.last_pts_90k)
    }

    /// The state after a timestamp was handed out for `timestamp_ns`.
    pub open spec fn stamped(self, timestamp_ns: u64) -> AvMuxState {
        AvMuxState {
            origin_ns: Some(self.origin_for(timestamp_ns)),
            pts_offset_90k: self.offset_for(timestamp_ns),
            last_pts_90k: Some(self.pts_for(timestamp_ns)),
            ..self
        }
    }

    /// The state after the program tables were written.
    pub open spec fn tabled(self) -> AvMuxState {
        AvMuxState { cc_pat: next_cc(self.cc_pat), cc_pmt: next_cc(self.cc_pmt), ..self }
    }

    /// Whether the next video frame is preceded by the program tables.
    pub open spec fn video_tables_due(self) -> bool {
        self.video_count % VIDEO_TABLE_PERIOD == 0
    }

    /// Whether the next audio frame is preceded by the program tables.
    pub open spec fn audio_tables_due(self) -> bool {
        self.audio_count % AUDIO_TABLE_PERIOD == 0
    }

    /// The bytes that a video frame produces.
    pub open spec fn video_output(self, annexb: Seq<u8>, timestamp_ns: u64) -> Seq<u8> {
        (if self.video_tables_due() {
            av_tables(self.cc_pat, self.cc_pmt)
        } else {
            Seq::empty()
        }) + pes_ts_packets(
            pes_packet(STREAM_ID_VIDEO, self.pts_for(timestamp_ns), annexb),
            PID_VIDEO,
            true,
            self.cc_video,
            Some(self.pts_for(timestamp_ns)),
        )
    }

    /// The state after a video frame.
    pub open spec fn after_video(self, annexb: Seq<u8>, timestamp_ns: u64) -> AvMuxState {
        let base = if self.video_tables_due() {
            self.tabled()
        } else {
            self
        };
        AvMuxState {
            cc_video: cc_after(self.cc_video, ts_packet_count(14 + annexb.len() as int, true)),
            video_count: next_count(self.video_count),
            ..base.stamped(timestamp_ns)
        }
    }

    /// The bytes that an audio frame produces.
    pub open spec fn audio_output(self, adts_frame: Seq<u8>, timestamp_ns: u64) -> Seq<u8> {
        (if self.audio_tables_due() {
            av_tables(self.cc_pat, self.cc_pmt)
        } else {
            Seq::empty()
        }) + pes_ts_packets(
            pes_packet(STREAM_ID_AUDIO, self.pts_for(timestamp_ns), adts_frame),
            PID_AUDIO,
            true,
            self.cc_audio,
            None,
        )
    }

    /// The state after an audio frame.
    pub open spec fn after_audio(self, adts_frame: Seq<u8>, timestamp_ns: u64) -> AvMuxState {
        let base = if self.audio_tables_due() {
            self.tabled()
        } else {
            self
        };
        AvMuxState {
            cc_audio: cc_after(self.cc_audio, ts_packet_count(14 + adts_frame.len() as int, false)),
            audio_count: next_count(self.audio_count),
            ..base.stamped(timestamp_ns)
        }
    }
}

/// Multiplexer for a program that carries one H.264 and one AAC stream on a
/// shared presentation clock that never runs backwards. It outlives the
/// connections that feed it: when either stream reconnects, counters, clock
/// origin and timebase offset stay as they are, and a source clock that
/// starts over is absorbed by the correction of the timestamps.
pub struct AvMpegTsMuxer {
    cc_pat: u8,
    cc_pmt: u8,
    cc_video: u8,
    cc_audio: u8,
    origin_ns: Option<u64>,
    pts_offset_90k: u64,
    last_pts_90k: Option<u64>,
    video_count: u64,
    audio_count: u64,
}

impl View for AvMpegTsMuxer {
    type V = AvMuxState;

    closed spec fn view(&self) -> AvMuxState {
        AvMuxState {
            cc_pat: self.cc_pat,
            cc_pmt: self.cc_pmt,
            cc_video: self.cc_video,
            cc_audio: self.cc_audio,
            origin_ns: self.origin_ns,
            pts_offset_90k: self.pts_offset_90k,
            last_pts_90k: self.last_pts_90k,
            video_count: self.video_count,
            audio_count: self.audio_count,
        }
    }
}

impl AvMpegTsMuxer {
    /// A multiplexer that has seen no sample.
    pub fn new() -> (muxer: Self)
        ensures
            muxer@ == AvMuxState::initial(),
    {
        Self {
            cc_pat: 0,
            cc_pmt: 0,
            cc_video: 0,
            cc_audio: 0,
            origin_ns: None,
            pts_offset_90k: 0,
            last_pts_90k: None,
            video_count: 0,
            audio_count: 0,
        }
    }

    /// Hands out the presentation timestamp of a sample. The first sample
    /// sets the zero of the clock. A sample whose ticks trail the last
    /// timestamp by more than the tolerance moves the timebase forward so
    /// that it lands the tolerance after the last one, and the new
    /// offset stays in force.
    pub fn pts_90k(&mut self, timestamp_ns: u64) -> (pts: u64)
        ensures
            pts == old(self)@.pts_for(timestamp_ns),
            final(self)@ == old(self)@.stamped(timestamp_ns),
            match old(self)@.last_pts_90k {
                Some(last) => pts > last || last == u64::MAX,
                None => true,
            },
    {
        let base: u64 = match self.origin_ns {
            Some(origin) => origin,
            None => {
                self.origin_ns = Some(timestamp_ns);
                timestamp_ns
            },
        };
        let raw_pts: u64 = ns_to_90k(timestamp_ns.saturating_sub(base));
        correct_pts(raw_pts, &mut self.pts_offset_90k, &mut self.last_pts_90k)
    }

    /// Appends the program tables to `out`.
    pub fn write_tables(&mut self, out: &mut Vec<u8>)
        ensures
            final(out)@ == old(out)@ + av_tables(old(self)@.cc_pat, old(self)@.cc_pmt),
            final(self)@ == old(self)@.tabled(),
    {
        let pat: Vec<u8> = build_pat_section(PID_PMT);
        let pat_packet: Vec<u8> = packetize_psi(pat.as_slice(), PID_PAT, &mut self.cc_pat);
        append(out, pat_packet.as_slice());
        let pmt: Vec<u8> = build_pmt_section_av(PID_VIDEO, PID_VIDEO, PID_AUDIO);
        let pmt_packet: Vec<u8> = packetize_psi(pmt.as_slice(), PID_PMT, &mut self.cc_pmt);
        append(out, pmt_packet.as_slice());
        proof {
            assert(out@ =~= old(out)@ + av_tables(old(self)@.cc_pat, old(self)@.cc_pmt));
        }
    }

    /// Wraps one access unit into transport packets, preceded by the program
    /// tables on the first frame and on every thirtieth after it. The first
    /// packet carries the frame's timestamp as clock reference.
    pub fn push_video_access_unit(&mut self, annexb: &[u8], timestamp_ns: u64) -> (out: Vec<u8>)
        ensures
            out@ == old(self)@.video_output(annexb@, timestamp_ns),
            final(self)@ == old(self)@.after_video(annexb@, timestamp_ns),
            is_ts_stream(out@),
    {
        proof {
            lemma_sample_output_is_ts_stream(
                old(self)@,
                Sample::Video { timestamp_ns, annexb: annexb@ },
            );
        }
        let mut out: Vec<u8> = Vec::new();

        if self.video_count % VIDEO_TABLE_PERIOD == 0 {
            self.write_tables(&mut out);
        }
        let pts_90k: u64 = self.pts_90k(timestamp_ns);
        let pes: Vec<u8> = build_h264_pes(annexb, pts_90k);
        let packets: Vec<u8> = packetize_pes(
            pes.as_slice(),
            PID_VIDEO,
            &mut self.cc_video,
            Some(pts_90k),
        );
        append(&mut out, packets.as_slice());
        self.video_count = self.video_count.wrapping_add(1);
        proof {
            assert(out@ =~= old(self)@.video_output(annexb@, timestamp_ns));
        }
        out
    }

    /// Wraps one ADTS frame into transport packets, preceded by the program
    /// tables on the first frame and on every 120th after it, so that a
    /// stretch without video still announces the program.
    pub fn push_audio_adts_frame(&mut self, adts_frame: &[u8], timestamp_ns: u64) -> (out: Vec<u8>)
        ensures
            out@ == old(self)@.audio_output(adts_frame@, timestamp_ns),
            final(self)@ == old(self)@.after_audio(adts_frame@, timestamp_ns),
            is_ts_stream(out@),
    {
        proof {
            lemma_sample_output_is_ts_stream(
                old(self)@,
                Sample::Audio { timestamp_ns, adts_frame: adts_frame@ },
            );
        }
        let mut out: Vec<u8> = Vec::new();

        if self.audio_count % AUDIO_TABLE_PERIOD == 0 {
            self.write_tables(&mut out);
        }
        let pts_90k: u64 = self.pts_90k(timestamp_ns);
        let pes: Vec<u8> = build_aac_pes(adts_frame, pts_90k);
        let packets: Vec<u8> = packetize_pes(pes.as_slice(), PID_AUDIO, &mut self.cc_audio, None);
        append(&mut out, packets.as_slice());
        self.audio_count = self.audio_count.wrapping_add(1);
        proof {
            assert(out@ =~= old(self)@.audio_output(adts_frame@, timestamp_ns));
        }
        out
    }
}

/// The tables that a player needs before the first sample of a program with
/// video and audio arrives.
pub fn build_bootstrap_tables_av() -> (out: Vec<u8>)
    ensures
        out@ == av_tables(0, 0),
{
    let mut out: Vec<u8> = Vec::new();
    let mut muxer: AvMpegTsMuxer = AvMpegTsMuxer::new();
    muxer.write_tables(&mut out);
    proof {
        assert(out@ =~= av_tables(0, 0));
    }
    out
}

/// One unit of either elementary stream on its way to the multiplexer.
pub enum AvSample {
    Video { timestamp_ns: u64, annexb: Vec<u8> },
    Audio { timestamp_ns: u64, adts_frame: Vec<u8> },
}

/// What a sample holds.
pub enum Sample {
    Video { timestamp_ns: u64, annexb: Seq<u8> },
    Audio { timestamp_ns: u64, adts_frame: Seq<u8> },
}

impl View for AvSample {
    type V = Sample;

    open spec fn view(&self) -> Sample {
        match self {
            AvSample::Video { timestamp_ns, annexb } => Sample::Video {
                timestamp_ns: *timestamp_ns,
                annexb: annexb@,
            },
            AvSample::Audio { timestamp_ns, adts_frame } => Sample::Audio {
                timestamp_ns: *timestamp_ns,
                adts_frame: adts_frame@,
            },
        }
    }
}

/// What an optional sample holds.
pub open spec fn opt_sample(s: Option<AvSample>) -> Option<Sample> {
    match s {
        Some(sample) => Some(sample@),
        None => None,
    }
}

impl AvMuxState {
    /// The bytes that a sample produces.
    pub open spec fn sample_output(self, sample: Sample) -> Seq<u8> {
        match sample {
            Sample::Video { timestamp_ns, annexb } => self.video_output(annexb, timestamp_ns),
            Sample::Audio { timestamp_ns, adts_frame } => self.audio_output(
                adts_frame,
                timestamp_ns,
            ),
        }
    }

    /// The state after a sample.
    pub open spec fn after_sample(self, sample: Sample) -> AvMuxState {
        match sample {
            Sample::Video { timestamp_ns, annexb } => self.after_video(annexb, timestamp_ns),
            Sample::Audio { timestamp_ns, adts_frame } => self.after_audio(
                adts_frame,
                timestamp_ns,
            ),
        }
    }

    /// The state after a sequence of samples.
    pub open spec fn run(self, samples: Seq<Sample>) -> AvMuxState
        decreases samples.len(),
    {
        if samples.len() == 0 {
            self
        } else {
            self.run(samples.drop_last()).after_sample(samples.last())
        }
    }

    /// The bytes that a sequence of samples produces, one after another.
    pub open spec fn run_output(self, samples: Seq<Sample>) -> Seq<u8>
        decreases samples.len(),
    {
        if samples.len() == 0 {
            Seq::empty()
        } else {
            self.run_output(samples.drop_last()) + self.run(samples.drop_last()).sample_output(
                samples.last(),
            )
        }
    }
}

impl AvMpegTsMuxer {
    /// Wraps one sample of either stream into transport packets.
    pub fn push_sample(&mut self, sample: &AvSample) -> (out: Vec<u8>)
        ensures
            out@ == old(self)@.sample_output(sample@),
            final(self)@ == old(self)@.after_sample(sample@),
            is_ts_stream(out@),
            out@.len() > 0,
    {
        proof {
            lemma_sample_output_is_ts_stream(old(self)@, sample@);
        }
        match sample {
            AvSample::Video { timestamp_ns, annexb } => self.push_video_access_unit(
                annexb.as_slice(),
                *timestamp_ns,
            ),
            AvSample::Audio { timestamp_ns, adts_frame } => self.push_audio_adts_frame(
                adts_frame.as_slice(),
                *timestamp_ns,
            ),
        }
    }
}

} // verus!
