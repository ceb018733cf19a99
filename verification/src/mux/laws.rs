//! What holds of everything that a multiplexer puts out.

use vstd::prelude::*;
use crate::mux::av::{AvMuxState, Sample};
use crate::mux::clock::{shift_needed, PTS_TOLERANCE};
use crate::mux::packet::{
    pes_ts_packet, pes_ts_packets, ts_packet_count, ts_payload_len, PID_AUDIO, PID_PAT, PID_PMT,
    PID_VIDEO, TS_PACKET_SIZE,
};
use crate::mux::pes::{pes_packet, STREAM_ID_AUDIO, STREAM_ID_VIDEO};
use crate::mux::tables::{
    av_tables, pat_section, pmt_section, pmt_section_av, psi_packet, video_tables,
};
use crate::mux::video::{TimedUnit, VideoMuxState};

verus! {

// ---------------------------------------------------------------------------
// Presentation timestamps
// ---------------------------------------------------------------------------

/// The timestamp of a sample on its source's clock.
pub open spec fn sample_time(sample: Sample) -> u64 {
    match sample {
        Sample::Video { timestamp_ns, .. } => timestamp_ns,
        Sample::Audio { timestamp_ns, .. } => timestamp_ns,
    }
}

/// The presentation timestamp that sample `i` of a sequence receives.
pub open spec fn pts_at(state: AvMuxState, samples: Seq<Sample>, i: int) -> u64 {
    state.run(samples.take(i)).pts_for(sample_time(samples[i]))
}

/// A timestamp is later than the one handed out before it, whatever the
/// sample's own clock says, as long as the one before is not the largest
/// value that the clock can hold.
pub proof fn lemma_pts_advances(state: AvMuxState, timestamp_ns: u64)
    requires
        state.last_pts_90k is Some,
        state.last_pts_90k->0 < u64::MAX,
    ensures
        state.pts_for(timestamp_ns) > state.last_pts_90k->0,
{
}

/// At the largest value the clock stands still.
pub proof fn lemma_pts_holds_at_the_end(state: AvMuxState, timestamp_ns: u64)
    requires
        state.last_pts_90k == Some(u64::MAX),
    ensures
        state.pts_for(timestamp_ns) == u64::MAX,
{
}

/// A sample that trails the last timestamp by more than the tolerance lands
/// the tolerance after it, and the timebase stays where that put it.
pub proof fn lemma_pts_shift(state: AvMuxState, timestamp_ns: u64)
    requires
        state.needs_shift(timestamp_ns),
        state.last_pts_90k->0 + PTS_TOLERANCE <= u64::MAX,
    ensures
        state.pts_for(timestamp_ns) == state.last_pts_90k->0 + PTS_TOLERANCE,
        state.stamped(timestamp_ns).pts_offset_90k == state.last_pts_90k->0
            + PTS_TOLERANCE - state.raw_pts(timestamp_ns),
{
}

/// After a sample the multiplexer remembers the timestamp that it gave it.
pub proof fn lemma_last_pts_after_sample(state: AvMuxState, sample: Sample)
    ensures
        state.after_sample(sample).last_pts_90k == Some(state.pts_for(sample_time(sample))),
{
}

/// Over any sequence of samples, of either stream and with any timestamps,
/// each presentation timestamp is later than the one before it, as long as
/// the one before is not the largest value that the clock can hold.
pub proof fn lemma_pts_strictly_increasing(state: AvMuxState, samples: Seq<Sample>, i: int)
    requires
        0 < i < samples.len(),
        pts_at(state, samples, i - 1) < u64::MAX,
    ensures
        pts_at(state, samples, i) > pts_at(state, samples, i - 1),
{
    let before = state.run(samples.take(i - 1));
    assert(samples.take(i).drop_last() =~= samples.take(i - 1));
    assert(samples.take(i).last() == samples[i - 1]);
    assert(state.run(samples.take(i)) == before.after_sample(samples[i - 1]));
    lemma_last_pts_after_sample(before, samples[i - 1]);
    lemma_pts_advances(state.run(samples.take(i)), sample_time(samples[i]));
}

/// The presentation timestamp that frame `i` of a sequence is written with
/// by a video-only multiplexer.
pub open spec fn video_pts_at(state: VideoMuxState, frames: Seq<TimedUnit>, i: int) -> u64 {
    state.run(frames.take(i)).pts_for(frames[i].pts_90k)
}

/// On a video-only multiplexer a frame is written with a timestamp later
/// than the one written before it, whatever timestamp it comes with, as
/// long as the one before is not the largest value that the clock can hold.
pub proof fn lemma_video_pts_advances(state: VideoMuxState, pts_90k: u64)
    requires
        state.last_pts_90k is Some,
        state.last_pts_90k->0 < u64::MAX,
    ensures
        state.pts_for(pts_90k) > state.last_pts_90k->0,
{
}

/// A frame whose timestamp trails the last one written by more than the
/// tolerance is written the tolerance after it.
pub proof fn lemma_video_pts_shift(state: VideoMuxState, pts_90k: u64)
    requires
        shift_needed(pts_90k, state.pts_offset_90k, state.last_pts_90k),
        state.last_pts_90k->0 + PTS_TOLERANCE <= u64::MAX,
    ensures
        state.pts_for(pts_90k) == state.last_pts_90k->0 + PTS_TOLERANCE,
{
}

/// Over any sequence of frames on a video-only multiplexer, with any
/// timestamps, each frame is written with a timestamp later than the one
/// before it, as long as the one before is not the largest value that the
/// clock can hold.
pub proof fn lemma_video_pts_strictly_increasing(
    state: VideoMuxState,
    frames: Seq<TimedUnit>,
    i: int,
)
    requires
        0 < i < frames.len(),
        video_pts_at(state, frames, i - 1) < u64::MAX,
    ensures
        video_pts_at(state, frames, i) > video_pts_at(state, frames, i - 1),
{
    let before = state.run(frames.take(i - 1));
    assert(frames.take(i).drop_last() =~= frames.take(i - 1));
    assert(frames.take(i).last() == frames[i - 1]);
    assert(state.run(frames.take(i)) == before.advance(frames[i - 1].annexb, frames[i - 1].pts_90k));
    lemma_video_pts_advances(state.run(frames.take(i)), frames[i].pts_90k);
}

// ---------------------------------------------------------------------------
// Shape of the output
// ---------------------------------------------------------------------------

/// Whether `s` is a whole number of transport packets, each beginning with
/// the sync byte.
pub open spec fn is_ts_stream(s: Seq<u8>) -> bool {
    s.len() % TS_PACKET_SIZE as nat == 0 && forall|i: int|
        0 <= i < s.len() && i % TS_PACKET_SIZE as int == 0 ==> #[trigger] s[i] == 0x47
}

/// Two streams of whole packets make a stream of whole packets.
pub proof fn lemma_ts_stream_concat(a: Seq<u8>, b: Seq<u8>)
    requires
        is_ts_stream(a),
        is_ts_stream(b),
    ensures
        is_ts_stream(a + b),
{
    assert forall|i: int| 0 <= i < (a + b).len() && i % 188 == 0 implies #[trigger] (a + b)[i]
        == 0x47 by {
        if i >= a.len() {
            assert((a + b)[i] == b[i - a.len()]);
            assert((i - a.len()) % 188 == 0);
        }
    }
}

/// A table packet is one whole packet.
pub proof fn lemma_psi_packet_shape(section: Seq<u8>, pid: u16, cc: u8)
    ensures
        psi_packet(section, pid, cc).len() == TS_PACKET_SIZE,
        psi_packet(section, pid, cc)[0] == 0x47,
        is_ts_stream(psi_packet(section, pid, cc)),
{
    let p = psi_packet(section, pid, cc);
    assert(p.len() == 188);
    assert forall|i: int| 0 <= i < p.len() && i % 188 == 0 implies #[trigger] p[i] == 0x47 by {
        assert(i == 0);
    }
}

/// A packet that carries PES data is one whole packet.
pub proof fn lemma_pes_ts_packet_shape(
    rest: Seq<u8>,
    pid: u16,
    unit_start: bool,
    cc: u8,
    pcr: Option<u64>,
)
    requires
        rest.len() > 0,
    ensures
        pes_ts_packet(rest, pid, unit_start, cc, pcr).len() == TS_PACKET_SIZE,
        pes_ts_packet(rest, pid, unit_start, cc, pcr)[0] == 0x47,
{
}

/// The packets of a PES packet are whole packets, as many as counted.
pub proof fn lemma_pes_ts_packets_shape(
    rest: Seq<u8>,
    pid: u16,
    unit_start: bool,
    cc: u8,
    pcr: Option<u64>,
)
    ensures
        pes_ts_packets(rest, pid, unit_start, cc, pcr).len() == TS_PACKET_SIZE * ts_packet_count(
            rest.len() as int,
            pcr is Some,
        ),
        is_ts_stream(pes_ts_packets(rest, pid, unit_start, cc, pcr)),
    decreases rest.len(),
{
    if rest.len() > 0 {
        let n = ts_payload_len(rest.len() as int, pcr is Some);
        let head = pes_ts_packet(rest, pid, unit_start, cc, pcr);
        let tail = pes_ts_packets(rest.skip(n), pid, false, crate::mux::packet::next_cc(cc), None);
        lemma_pes_ts_packet_shape(rest, pid, unit_start, cc, pcr);
        lemma_pes_ts_packets_shape(rest.skip(n), pid, false, crate::mux::packet::next_cc(cc), None);
        assert forall|i: int| 0 <= i < head.len() && i % 188 == 0 implies #[trigger] head[i]
            == 0x47 by {
            assert(i == 0);
        }
        lemma_ts_stream_concat(head, tail);
    }
}

/// The program tables are two whole packets.
pub proof fn lemma_tables_shape(cc_pat: u8, cc_pmt: u8)
    ensures
        is_ts_stream(video_tables(cc_pat, cc_pmt)),
        is_ts_stream(av_tables(cc_pat, cc_pmt)),
        video_tables(cc_pat, cc_pmt).len() == 2 * TS_PACKET_SIZE,
        av_tables(cc_pat, cc_pmt).len() == 2 * TS_PACKET_SIZE,
{

    lemma_psi_packet_shape(pat_section(PID_PMT), PID_PAT, cc_pat);
    lemma_psi_packet_shape(pmt_section(PID_VIDEO, PID_VIDEO), PID_PMT, cc_pmt);
    lemma_psi_packet_shape(pmt_section_av(PID_VIDEO, PID_VIDEO, PID_AUDIO), PID_PMT, cc_pmt);
    lemma_ts_stream_concat(
        psi_packet(pat_section(PID_PMT), PID_PAT, cc_pat),
        psi_packet(pmt_section(PID_VIDEO, PID_VIDEO), PID_PMT, cc_pmt),
    );
    lemma_ts_stream_concat(
        psi_packet(pat_section(PID_PMT), PID_PAT, cc_pat),
        psi_packet(pmt_section_av(PID_VIDEO, PID_VIDEO, PID_AUDIO), PID_PMT, cc_pmt),
    );
}

/// Whatever a video-only multiplexer puts out for a frame is a whole number
/// of packets, each beginning with the sync byte.
pub proof fn lemma_video_output_is_ts_stream(state: VideoMuxState, annexb: Seq<u8>, pts_90k: u64)
    ensures
        is_ts_stream(state.output(annexb, pts_90k)),
        state.output(annexb, pts_90k).len() > 0,
{

    lemma_tables_shape(state.cc_pat, state.cc_pmt);
    let pts = state.pts_for(pts_90k);
    let pes = pes_packet(STREAM_ID_VIDEO, pts, annexb);
    lemma_pes_ts_packets_shape(pes, PID_VIDEO, true, state.cc_video, Some(pts));
    let tables = if state.tables_due() {
        video_tables(state.cc_pat, state.cc_pmt)
    } else {
        Seq::<u8>::empty()
    };
    lemma_ts_stream_concat(tables, pes_ts_packets(pes, PID_VIDEO, true, state.cc_video, Some(pts)));
}

/// Whatever a video-only multiplexer puts out over any sequence of frames
/// is a whole number of packets, each beginning with the sync byte.
pub proof fn lemma_video_run_output_is_ts_stream(state: VideoMuxState, frames: Seq<TimedUnit>)
    ensures
        is_ts_stream(state.run_output(frames)),
    decreases frames.len(),
{
    if frames.len() > 0 {
        lemma_video_run_output_is_ts_stream(state, frames.drop_last());
        lemma_video_output_is_ts_stream(
            state.run(frames.drop_last()),
            frames.last().annexb,
            frames.last().pts_90k,
        );
        lemma_ts_stream_concat(
            state.run_output(frames.drop_last()),
            state.run(frames.drop_last()).output(frames.last().annexb, frames.last().pts_90k),
        );
    }
}

/// Whatever a multiplexer for video and audio puts out for a sample is a
/// whole number of packets, each beginning with the sync byte.
pub proof fn lemma_sample_output_is_ts_stream(state: AvMuxState, sample: Sample)
    ensures
        is_ts_stream(state.sample_output(sample)),
        state.sample_output(sample).len() > 0,
{

    lemma_tables_shape(state.cc_pat, state.cc_pmt);
    match sample {
        Sample::Video { timestamp_ns, annexb } => {
            let pts = state.pts_for(timestamp_ns);
            let pes = pes_packet(STREAM_ID_VIDEO, pts, annexb);
            lemma_pes_ts_packets_shape(pes, PID_VIDEO, true, state.cc_video, Some(pts));
            let tables = if state.video_tables_due() {
                av_tables(state.cc_pat, state.cc_pmt)
            } else {
                Seq::<u8>::empty()
            };
            lemma_ts_stream_concat(
                tables,
                pes_ts_packets(pes, PID_VIDEO, true, state.cc_video, Some(pts)),
            );
        },
        Sample::Audio { timestamp_ns, adts_frame } => {
            let pts = state.pts_for(timestamp_ns);
            let pes = pes_packet(STREAM_ID_AUDIO, pts, adts_frame);
            lemma_pes_ts_packets_shape(pes, PID_AUDIO, true, state.cc_audio, None);
            let tables = if state.audio_tables_due() {
                av_tables(state.cc_pat, state.cc_pmt)
            } else {
                Seq::<u8>::empty()
            };
            lemma_ts_stream_concat(
                tables,
                pes_ts_packets(pes, PID_AUDIO, true, state.cc_audio, None),
            );
        },
    }
}

/// Whatever a multiplexer puts out over any sequence of samples is a whole
/// number of packets, each beginning with the sync byte.
pub proof fn lemma_run_output_is_ts_stream(state: AvMuxState, samples: Seq<Sample>)
    ensures
        is_ts_stream(state.run_output(samples)),
    decreases samples.len(),
{
    if samples.len() > 0 {
        lemma_run_output_is_ts_stream(state, samples.drop_last());
        lemma_sample_output_is_ts_stream(state.run(samples.drop_last()), samples.last());
        lemma_ts_stream_concat(
            state.run_output(samples.drop_last()),
            state.run(samples.drop_last()).sample_output(samples.last()),
        );
    }
}

} // verus!
