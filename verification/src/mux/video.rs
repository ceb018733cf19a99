//! Multiplexer for a program that carries video alone.

use vstd::prelude::*;
use crate::mux::clock::{correct_pts, corrected_offset, corrected_pts};
use crate::mux::laws::{is_ts_stream, lemma_video_output_is_ts_stream};
use crate::mux::packet::{
    cc_after, next_cc, packetize_pes, pes_ts_packets, ts_packet_count, PID_PAT, PID_PMT, PID_VIDEO,
};
use crate::mux::pes::{build_h264_pes, pes_packet, STREAM_ID_VIDEO};
use crate::mux::tables::{build_pat_section, build_pmt_section, packetize_psi, video_tables};
use crate::octets::append;

verus! {

/// Frames of video between two refreshes of the program tables.
pub const VIDEO_TABLE_PERIOD: u64 = 30;

/// The counter after `n`, wrapping at the width of `u64`.
pub open spec fn next_count(n: u64) -> u64 {
    if n == u64::MAX {
        0
    } else {
        (n + 1) as u64
    }
}

/// What a video-only multiplexer remembers between frames.
pub struct VideoMuxState {
    pub cc_pat: u8,
    pub cc_pmt: u8,
    pub cc_video: u8,
    pub frame_index: u64,
    /// Ticks added to every timestamp since the last correction.
    pub pts_offset_90k: u64,
    /// The presentation timestamp written last.
    pub last_pts_90k: Option<u64>,
}

impl VideoMuxState {
    /// The state of a multiplexer that has seen no frame.
    pub open spec fn initial() -> VideoMuxState {
        VideoMuxState {
            cc_pat: 0,
            cc_pmt: 0,
            cc_video: 0,
            frame_index: 0,
            pts_offset_90k: 0,
            last_pts_90k: None,
        }
    }

    /// The presentation timestamp written for a frame that comes with
    /// `pts_90k`: that timestamp on the corrected timebase, or one tick
    /// after the last one where that would not be later.
    pub open spec fn pts_for(self, pts_90k: u64) -> u64 {
        corrected_pts(pts_90k, self.pts_offset_90k, self.last_pts_90k)
    }

    /// The offset in force for a frame that comes with `pts_90k`.
    pub open spec fn offset_for(self, pts_90k: u64) -> u64 {
        corrected_offset(pts_90k, self.pts_offset_90k, self.last_pts_90k)
    }

    /// Whether the next frame is preceded by the program tables.
    pub open spec fn tables_due(self) -> bool {
        self.frame_index % VIDEO_TABLE_PERIOD == 0
    }

    /// The bytes that the next frame produces: the tables where they are
    /// due, then the frame under its corrected timestamp, which is also the
    /// clock reference of its first packet.
    pub open spec fn output(self, annexb: Seq<u8>, pts_90k: u64) -> Seq<u8> {
        (if self.tables_due() {
            video_tables(self.cc_pat, self.cc_pmt)
        } else {
            Seq::empty()
        }) + pes_ts_packets(
            pes_packet(STREAM_ID_VIDEO, self.pts_for(pts_90k), annexb),
            PID_VIDEO,
            true,
            self.cc_video,
            Some(self.pts_for(pts_90k)),
        )
    }

    /// The state after the next frame.
    pub open spec fn advance(self, annexb: Seq<u8>, pts_90k: u64) -> VideoMuxState {
        VideoMuxState {
            cc_pat: if self.tables_due() {
                next_cc(self.cc_pat)
            } else {
                self.cc_pat
            },
            cc_pmt: if self.tables_due() {
                next_cc(self.cc_pmt)
            } else {
                self.cc_pmt
            },
            cc_video: cc_after(self.cc_video, ts_packet_count(14 + annexb.len() as int, true)),
            frame_index: next_count(self.frame_index),
            pts_offset_90k: self.offset_for(pts_90k),
            last_pts_90k: Some(self.pts_for(pts_90k)),
        }
    }
}

/// An access unit with the presentation timestamp that it comes with.
pub struct TimedUnit {
    pub annexb: Seq<u8>,
    pub pts_90k: u64,
}

impl VideoMuxState {
    /// The state after a sequence of frames.
    pub open spec fn run(self, frames: Seq<TimedUnit>) -> VideoMuxState
        decreases frames.len(),
    {
        if frames.len() == 0 {
            self
        } else {
            self.run(frames.drop_last()).advance(frames.last().annexb, frames.last().pts_90k)
        }
    }

    /// The bytes that a sequence of frames produces, one after another.
    pub open spec fn run_output(self, frames: Seq<TimedUnit>) -> Seq<u8>
        decreases frames.len(),
    {
        if frames.len() == 0 {
            Seq::empty()
        } else {
            self.run_output(frames.drop_last()) + self.run(frames.drop_last()).output(
                frames.last().annexb,
                frames.last().pts_90k,
            )
        }
    }
}

/// Multiplexer for a program that carries one H.264 stream. The timestamps
/// that it writes never go back: one that trails the last by more than the
/// tolerance moves the timebase forward. It lives as long as one
/// connection: a reconnect begins with a new multiplexer, and with it a new
/// timebase.
pub struct MpegTsMuxer {
    cc_pat: u8,
    cc_pmt: u8,
    cc_video: u8,
    frame_index: u64,
    pts_offset_90k: u64,
    last_pts_90k: Option<u64>,
}

impl View for MpegTsMuxer {
    type V = VideoMuxState;

    closed spec fn view(&self) -> VideoMuxState {
        VideoMuxState {
            cc_pat: self.cc_pat,
            cc_pmt: self.cc_pmt,
            cc_video: self.cc_video,
            frame_index: self.frame_index,
            pts_offset_90k: self.pts_offset_90k,
            last_pts_90k: self.last_pts_90k,
        }
    }
}

impl MpegTsMuxer {
    /// A multiplexer that has seen no frame.
    pub fn new() -> (muxer: Self)
        ensures
            muxer@ == VideoMuxState::initial(),
    {
        Self {
            cc_pat: 0,
            cc_pmt: 0,
            cc_video: 0,
            frame_index: 0,
            pts_offset_90k: 0,
            last_pts_90k: None,
        }
    }

    /// Wraps one access unit into transport packets, preceded by the program
    /// tables on the first frame and on every thirtieth after it. The
    /// timestamp written is `pts_90k` on the corrected timebase, later than
    /// the one written before it.
    pub fn push_video_access_unit(&mut self, annexb: &[u8], pts_90k: u64) -> (out: Vec<u8>)
        ensures
            out@ == old(self)@.output(annexb@, pts_90k),
            final(self)@ == old(self)@.advance(annexb@, pts_90k),
            is_ts_stream(out@),
            match old(self)@.last_pts_90k {
                Some(last) => old(self)@.pts_for(pts_90k) > last || last == u64::MAX,
                None => true,
            },
    {
        proof {
            lemma_video_output_is_ts_stream(old(self)@, annexb@, pts_90k);
        }
        let mut out: Vec<u8> = Vec::new();

        if self.frame_index % VIDEO_TABLE_PERIOD == 0 {
            let pat: Vec<u8> = build_pat_section(PID_PMT);
            let pat_packet: Vec<u8> = packetize_psi(pat.as_slice(), PID_PAT, &mut self.cc_pat);
            append(&mut out, pat_packet.as_slice());
            let pmt: Vec<u8> = build_pmt_section(PID_VIDEO, PID_VIDEO);
            let pmt_packet: Vec<u8> = packetize_psi(pmt.as_slice(), PID_PMT, &mut self.cc_pmt);
            append(&mut out, pmt_packet.as_slice());
        }
        let pts: u64 = correct_pts(pts_90k, &mut self.pts_offset_90k, &mut self.last_pts_90k);
        let pes: Vec<u8> = build_h264_pes(annexb, pts);
        let packets: Vec<u8> = packetize_pes(pes.as_slice(), PID_VIDEO, &mut self.cc_video, Some(pts));
        append(&mut out, packets.as_slice());
        self.frame_index = self.frame_index.wrapping_add(1);
        proof {
            assert(out@ =~= old(self)@.output(annexb@, pts_90k));
        }
        out
    }
}

/// The tables that a player needs before the first frame of a video-only
/// program arrives.
pub fn build_bootstrap_tables() -> (out: Vec<u8>)
    ensures
        out@ == video_tables(0, 0),
{
    let mut cc_pat: u8 = 0;
    let mut cc_pmt: u8 = 0;
    let mut out: Vec<u8> = Vec::new();
    let pat: Vec<u8> = build_pat_section(PID_PMT);
    let pat_packet: Vec<u8> = packetize_psi(pat.as_slice(), PID_PAT, &mut cc_pat);
    append(&mut out, pat_packet.as_slice());
    let pmt: Vec<u8> = build_pmt_section(PID_VIDEO, PID_VIDEO);
    let pmt_packet: Vec<u8> = packetize_psi(pmt.as_slice(), PID_PMT, &mut cc_pmt);
    append(&mut out, pmt_packet.as_slice());
    proof {
        assert(out@ =~= video_tables(0, 0));
    }
    out
}

} // verus!
