//! Continuity counters: on every PID they count up by one from packet to
//! packet, modulo 16, over everything that a multiplexer puts out.

use vstd::prelude::*;
use crate::mux::av::{AvMuxState, Sample};
use crate::mux::laws::{
    lemma_pes_ts_packet_shape, lemma_pes_ts_packets_shape, lemma_psi_packet_shape,
    lemma_run_output_is_ts_stream, lemma_sample_output_is_ts_stream,
    lemma_video_output_is_ts_stream, lemma_video_run_output_is_ts_stream,
};
use crate::mux::packet::{
    cc_after, next_cc, pes_ts_packet, pes_ts_packets, ts_packet_count, ts_payload_len, PID_AUDIO,
    PID_PAT, PID_PMT, PID_VIDEO,
};
use crate::mux::pes::{pes_packet, STREAM_ID_AUDIO, STREAM_ID_VIDEO};
use crate::mux::tables::{pat_section, pmt_section, pmt_section_av, psi_packet};
use crate::mux::video::{TimedUnit, VideoMuxState};

verus! {

/// The PID in the header of packet `k` of a stream.
pub open spec fn packet_pid(s: Seq<u8>, k: int) -> int {
    (s[188 * k + 1] % 32) * 256 + s[188 * k + 2]
}

/// The continuity counter in the header of packet `k` of a stream.
pub open spec fn packet_cc(s: Seq<u8>, k: int) -> int {
    (s[188 * k + 3] % 16) as int
}

/// PID and continuity counter of every packet of a stream, in order.
pub open spec fn heads(s: Seq<u8>) -> Seq<(int, int)> {
    Seq::new((s.len() / 188) as nat, |k: int| (packet_pid(s, k), packet_cc(s, k)))
}

/// How many of `h` are packets of `pid`.
pub open spec fn count_pid(h: Seq<(int, int)>, pid: int) -> nat
    decreases h.len(),
{
    if h.len() == 0 {
        0
    } else {
        count_pid(h.drop_last(), pid) + if h.last().0 == pid {
            1nat
        } else {
            0nat
        }
    }
}

/// Whether the packets of `pid` among `h` count up without a gap: each
/// carries the counter `start` plus the number of packets of `pid` before
/// it, modulo 16.
pub open spec fn continuous_on(h: Seq<(int, int)>, pid: int, start: int) -> bool {
    forall|k: int|
        0 <= k < h.len() && (#[trigger] h[k]).0 == pid ==> h[k].1 == (start + count_pid(
            h.take(k),
            pid,
        )) % 16
}

/// `n` packets of one PID that count up from `cc`.
pub open spec fn counting(pid: int, cc: int, n: nat) -> Seq<(int, int)> {
    Seq::new(n, |k: int| (pid, (cc + k) % 16))
}

/// Counting packets over two runs is counting over each.
pub proof fn lemma_count_concat(a: Seq<(int, int)>, b: Seq<(int, int)>, pid: int)
    ensures
        count_pid(a + b, pid) == count_pid(a, pid) + count_pid(b, pid),
    decreases b.len(),
{
    if b.len() == 0 {
        assert(a + b =~= a);
    } else {
        assert((a + b).drop_last() =~= a + b.drop_last());
        assert((a + b).last() == b.last());
        lemma_count_concat(a, b.drop_last(), pid);
    }
}

/// Among packets that count up on one PID, those of that PID are all of
/// them and those of another are none.
pub proof fn lemma_count_counting(pid: int, cc: int, n: nat, other: int)
    ensures
        count_pid(counting(pid, cc, n), other) == if other == pid {
            n
        } else {
            0
        },
    decreases n,
{
    if n > 0 {
        assert(counting(pid, cc, n).drop_last() =~= counting(pid, cc, (n - 1) as nat));
        lemma_count_counting(pid, cc, (n - 1) as nat, other);
    }
}

/// Packets that count up on one PID are continuous on every PID.
pub proof fn lemma_counting_continuous(pid: int, cc: int, n: nat, other: int, start: int)
    requires
        other == pid ==> (start - cc) % 16 == 0,
    ensures
        continuous_on(counting(pid, cc, n), other, start),
{
    let h = counting(pid, cc, n);
    assert forall|k: int| 0 <= k < h.len() && (#[trigger] h[k]).0 == other implies h[k].1 == (start
        + count_pid(h.take(k), other)) % 16 by {
        assert(h.take(k) =~= counting(pid, cc, k as nat));
        lemma_count_counting(pid, cc, k as nat, other);
    }
}

/// Two runs that are continuous, the second from where the first left the
/// counter, are continuous together.
pub proof fn lemma_continuous_concat(
    a: Seq<(int, int)>,
    b: Seq<(int, int)>,
    pid: int,
    start: int,
    mid: int,
)
    requires
        continuous_on(a, pid, start),
        continuous_on(b, pid, mid),
        (mid - (start + count_pid(a, pid))) % 16 == 0,
    ensures
        continuous_on(a + b, pid, start),
{
    let h = a + b;
    assert forall|k: int| 0 <= k < h.len() && (#[trigger] h[k]).0 == pid implies h[k].1 == (start
        + count_pid(h.take(k), pid)) % 16 by {
        if k < a.len() {
            assert(h[k] == a[k]);
            assert(h.take(k) =~= a.take(k));
        } else {
            let j = k - a.len();
            assert(h[k] == b[j]);
            assert(h.take(k) =~= a + b.take(j));
            lemma_count_concat(a, b.take(j), pid);
        }
    }
}

/// The heads of two streams of whole packets, one after the other.
pub proof fn lemma_heads_concat(a: Seq<u8>, b: Seq<u8>)
    requires
        a.len() % 188 == 0,
        b.len() % 188 == 0,
    ensures
        heads(a + b) =~= heads(a) + heads(b),
{
    let na = a.len() / 188;
    let nb = b.len() / 188;
    assert((a + b).len() / 188 == na + nb);
    assert forall|k: int| 0 <= k < na + nb implies heads(a + b)[k] == (heads(a) + heads(b))[k] by {
        if k < na {
            assert((a + b)[188 * k + 1] == a[188 * k + 1]);
            assert((a + b)[188 * k + 2] == a[188 * k + 2]);
            assert((a + b)[188 * k + 3] == a[188 * k + 3]);
        } else {
            let j = k - na;
            assert((a + b)[188 * k + 1] == b[188 * j + 1]);
            assert((a + b)[188 * k + 2] == b[188 * j + 2]);
            assert((a + b)[188 * k + 3] == b[188 * j + 3]);
        }
    }
}

/// A table packet carries its PID and the counter it was given.
pub proof fn lemma_heads_psi(section: Seq<u8>, pid: u16, cc: u8)
    ensures
        heads(psi_packet(section, pid, cc)) =~= counting(pid as int % 8192, cc as int, 1),
{
    lemma_psi_packet_shape(section, pid, cc);
    let p = psi_packet(section, pid, cc);
    assert(p.len() / 188 == 1);
    assert(p[1] == ((0x40 + (pid / 256) % 32) as u8));
    assert(p[2] == (pid % 256) as u8);
    assert(p[3] == ((0x10 + cc % 16) as u8));
    assert(packet_pid(p, 0) == pid as int % 8192);
    assert(packet_cc(p, 0) == (cc + 0) % 16);
}

/// The packets of a PES packet carry its PID and count up from the counter
/// they were given.
pub proof fn lemma_heads_pes(rest: Seq<u8>, pid: u16, unit_start: bool, cc: u8, pcr: Option<u64>)
    ensures
        heads(pes_ts_packets(rest, pid, unit_start, cc, pcr)) =~= counting(
            pid as int % 8192,
            cc as int,
            ts_packet_count(rest.len() as int, pcr is Some),
        ),
    decreases rest.len(),
{
    let count = ts_packet_count(rest.len() as int, pcr is Some);
    if rest.len() == 0 {
        assert(heads(Seq::<u8>::empty()) =~= counting(pid as int % 8192, cc as int, 0));
    } else {
        let n = ts_payload_len(rest.len() as int, pcr is Some);
        let head = pes_ts_packet(rest, pid, unit_start, cc, pcr);
        let tail = pes_ts_packets(rest.skip(n), pid, false, next_cc(cc), None);
        lemma_pes_ts_packet_shape(rest, pid, unit_start, cc, pcr);
        lemma_pes_ts_packets_shape(rest.skip(n), pid, false, next_cc(cc), None);
        lemma_heads_pes(rest.skip(n), pid, false, next_cc(cc), None);
        lemma_heads_concat(head, tail);
        assert(head.len() / 188 == 1);
        assert(packet_pid(head, 0) == pid as int % 8192);
        assert(packet_cc(head, 0) == cc as int % 16);
        let rest_count = ts_packet_count(rest.len() - n, false);
        assert(count == 1 + rest_count);
        let want = counting(pid as int % 8192, cc as int, count);
        let got = heads(head) + heads(tail);
        assert(got.len() == want.len());
        assert forall|k: int| 0 <= k < want.len() implies got[k] == want[k] by {
            if k > 0 {
                assert(got[k] == heads(tail)[k - 1]);
                assert((next_cc(cc) + (k - 1)) % 16 == (cc + k) % 16);
            }
        }
        assert(got =~= want);
    }
}

/// After `n` packets a counter stands `n` further, modulo 16.
pub proof fn lemma_cc_after(cc: u8, n: nat)
    ensures
        (cc_after(cc, n) - (cc + n)) % 16 == 0,
    decreases n,
{
    if n > 0 {
        lemma_cc_after(cc, (n - 1) as nat);
    }
}

/// The counter that a multiplexer holds for a PID.
pub open spec fn counter(state: AvMuxState, pid: int) -> int {
    if pid == PID_PAT {
        state.cc_pat as int
    } else if pid == PID_PMT {
        state.cc_pmt as int
    } else if pid == PID_VIDEO {
        state.cc_video as int
    } else if pid == PID_AUDIO {
        state.cc_audio as int
    } else {
        0
    }
}

/// Two runs that are continuous, the second from where the first left the
/// counter, are continuous together and leave the counter where the second
/// left it.
pub proof fn lemma_continuity_step(
    a: Seq<u8>,
    b: Seq<u8>,
    pid: int,
    start: int,
    mid: int,
    end: int,
)
    requires
        a.len() % 188 == 0,
        b.len() % 188 == 0,
        continuous_on(heads(a), pid, start),
        continuous_on(heads(b), pid, mid),
        (mid - (start + count_pid(heads(a), pid))) % 16 == 0,
        (end - (mid + count_pid(heads(b), pid))) % 16 == 0,
    ensures
        continuous_on(heads(a + b), pid, start),
        (end - (start + count_pid(heads(a + b), pid))) % 16 == 0,
{
    lemma_heads_concat(a, b);
    lemma_count_concat(heads(a), heads(b), pid);
    lemma_continuous_concat(heads(a), heads(b), pid, start, mid);
    assert(heads(a + b) == heads(a) + heads(b));
}

/// PID and counter of every packet that a sample produces: the two tables
/// where they are due, then the packets of the sample's own stream.
pub open spec fn sample_heads(
    due: bool,
    cc_pat: u8,
    cc_pmt: u8,
    es_pid: u16,
    es_cc: u8,
    count: nat,
) -> Seq<(int, int)> {
    (if due {
        counting(PID_PAT as int, cc_pat as int, 1) + counting(PID_PMT as int, cc_pmt as int, 1)
    } else {
        Seq::empty()
    }) + counting(es_pid as int, es_cc as int, count)
}

/// The two table packets, the second with the given map table.
pub open spec fn tables_with(pmt: Seq<u8>, cc_pat: u8, cc_pmt: u8) -> Seq<u8> {
    psi_packet(pat_section(PID_PMT), PID_PAT, cc_pat) + psi_packet(pmt, PID_PMT, cc_pmt)
}

/// The heads of the tables, where due, followed by the packets of a PES packet.
proof fn lemma_heads_of_output(
    due: bool,
    pmt: Seq<u8>,
    cc_pat: u8,
    cc_pmt: u8,
    pes: Seq<u8>,
    es_pid: u16,
    es_cc: u8,
    pcr: Option<u64>,
)
    requires
        es_pid < 8192,
    ensures
        heads(
            (if due {
                tables_with(pmt, cc_pat, cc_pmt)
            } else {
                Seq::<u8>::empty()
            }) + pes_ts_packets(pes, es_pid, true, es_cc, pcr),
        ) == sample_heads(
            due,
            cc_pat,
            cc_pmt,
            es_pid,
            es_cc,
            ts_packet_count(pes.len() as int, pcr is Some),
        ),
{
    let packets = pes_ts_packets(pes, es_pid, true, es_cc, pcr);
    let tables = if due {
        tables_with(pmt, cc_pat, cc_pmt)
    } else {
        Seq::<u8>::empty()
    };
    let pat_packet = psi_packet(pat_section(PID_PMT), PID_PAT, cc_pat);
    let pmt_packet = psi_packet(pmt, PID_PMT, cc_pmt);
    lemma_psi_packet_shape(pat_section(PID_PMT), PID_PAT, cc_pat);
    lemma_psi_packet_shape(pmt, PID_PMT, cc_pmt);
    lemma_pes_ts_packets_shape(pes, es_pid, true, es_cc, pcr);
    lemma_heads_concat(tables, packets);
    lemma_heads_pes(pes, es_pid, true, es_cc, pcr);
    if due {
        lemma_heads_psi(pat_section(PID_PMT), PID_PAT, cc_pat);
        lemma_heads_psi(pmt, PID_PMT, cc_pmt);
        lemma_heads_concat(pat_packet, pmt_packet);
    } else {
        assert(heads(tables) =~= Seq::<(int, int)>::empty());
    }
    assert(heads(tables + packets) =~= sample_heads(
        due,
        cc_pat,
        cc_pmt,
        es_pid,
        es_cc,
        ts_packet_count(pes.len() as int, pcr is Some),
    ));
}

/// The packets that a sample produces count up on every PID: on the PIDs
/// of the tables from `cc_pat` and `cc_pmt`, on the stream's from `es_cc`.
proof fn lemma_sample_heads_continuous(
    due: bool,
    cc_pat: u8,
    cc_pmt: u8,
    es_pid: u16,
    es_cc: u8,
    count: nat,
    pid: int,
    start: int,
)
    requires
        es_pid == PID_VIDEO || es_pid == PID_AUDIO,
        pid == PID_PAT ==> start == cc_pat,
        pid == PID_PMT ==> start == cc_pmt,
        pid == es_pid ==> start == es_cc,
    ensures
        continuous_on(sample_heads(due, cc_pat, cc_pmt, es_pid, es_cc, count), pid, start),
        count_pid(sample_heads(due, cc_pat, cc_pmt, es_pid, es_cc, count), pid) == (if due && (pid
            == PID_PAT || pid == PID_PMT) {
            1nat
        } else {
            0nat
        }) + (if pid == es_pid {
            count
        } else {
            0nat
        }),
{
    let es = counting(es_pid as int, es_cc as int, count);
    lemma_count_counting(es_pid as int, es_cc as int, count, pid);
    lemma_counting_continuous(es_pid as int, es_cc as int, count, pid, start);
    if due {
        let pat = counting(PID_PAT as int, cc_pat as int, 1);
        let pmt = counting(PID_PMT as int, cc_pmt as int, 1);
        lemma_count_counting(PID_PAT as int, cc_pat as int, 1, pid);
        lemma_count_counting(PID_PMT as int, cc_pmt as int, 1, pid);
        lemma_count_concat(pat, pmt, pid);
        lemma_count_concat(pat + pmt, es, pid);
        let after_pat = start + count_pid(pat, pid);
        let after_tables = start + count_pid(pat + pmt, pid);
        lemma_counting_continuous(PID_PAT as int, cc_pat as int, 1, pid, start);
        lemma_counting_continuous(PID_PMT as int, cc_pmt as int, 1, pid, after_pat);
        lemma_continuous_concat(pat, pmt, pid, start, after_pat);
        lemma_counting_continuous(es_pid as int, es_cc as int, count, pid, after_tables);
        lemma_continuous_concat(pat + pmt, es, pid, start, after_tables);
    } else {
        assert(Seq::<(int, int)>::empty() + es =~= es);
    }
}

/// Within what a video frame produces, the packets of every PID count up
/// from the counter that the multiplexer held for it, and the multiplexer
/// then holds the counter that follows the last of them.
pub proof fn lemma_video_continuity(
    state: AvMuxState,
    annexb: Seq<u8>,
    timestamp_ns: u64,
    pid: int,
)
    ensures
        continuous_on(heads(state.video_output(annexb, timestamp_ns)), pid, counter(state, pid)),
        (counter(state.after_video(annexb, timestamp_ns), pid) - (counter(state, pid) + count_pid(
            heads(state.video_output(annexb, timestamp_ns)),
            pid,
        ))) % 16 == 0,
{
    let pts = state.pts_for(timestamp_ns);
    let pes = pes_packet(STREAM_ID_VIDEO, pts, annexb);
    let count = ts_packet_count(pes.len() as int, true);
    let due = state.video_tables_due();
    let out = state.video_output(annexb, timestamp_ns);
    let after = state.after_video(annexb, timestamp_ns);
    let h = sample_heads(due, state.cc_pat, state.cc_pmt, PID_VIDEO, state.cc_video, count);
    assert(pes.len() == 14 + annexb.len());
    lemma_heads_of_output(
        due,
        pmt_section_av(PID_VIDEO, PID_VIDEO, PID_AUDIO),
        state.cc_pat,
        state.cc_pmt,
        pes,
        PID_VIDEO,
        state.cc_video,
        Some(pts),
    );
    assert(heads(out) == h);
    lemma_sample_heads_continuous(
        due,
        state.cc_pat,
        state.cc_pmt,
        PID_VIDEO,
        state.cc_video,
        count,
        pid,
        counter(state, pid),
    );
    lemma_cc_after(state.cc_video, count);
    assert(after.cc_video == cc_after(state.cc_video, count));
    assert(after.cc_audio == state.cc_audio);
    assert(after.cc_pat == if due {
        next_cc(state.cc_pat)
    } else {
        state.cc_pat
    });
    assert(after.cc_pmt == if due {
        next_cc(state.cc_pmt)
    } else {
        state.cc_pmt
    });
    lemma_counter_moved(counter(state, pid), counter(after, pid), count_pid(h, pid), count, due);
}

/// A counter that was advanced once, or as often as packets were sent, or
/// not at all, stands that many further, modulo 16.
proof fn lemma_counter_moved(before: int, after: int, sent: nat, count: nat, due: bool)
    requires
        0 <= before < 256,
        (sent == 0 && after == before) || (sent == 1 && due && after == (before + 1) % 16) || (sent
            == count && (after - (before + count)) % 16 == 0),
    ensures
        (after - (before + sent)) % 16 == 0,
{
}

/// Within what an audio frame produces, the packets of every PID count up
/// from the counter that the multiplexer held for it, and the multiplexer
/// then holds the counter that follows the last of them.
pub proof fn lemma_audio_continuity(
    state: AvMuxState,
    adts_frame: Seq<u8>,
    timestamp_ns: u64,
    pid: int,
)
    ensures
        continuous_on(
            heads(state.audio_output(adts_frame, timestamp_ns)),
            pid,
            counter(state, pid),
        ),
        (counter(state.after_audio(adts_frame, timestamp_ns), pid) - (counter(state, pid)
            + count_pid(heads(state.audio_output(adts_frame, timestamp_ns)), pid))) % 16 == 0,
{
    let pts = state.pts_for(timestamp_ns);
    let pes = pes_packet(STREAM_ID_AUDIO, pts, adts_frame);
    let count = ts_packet_count(pes.len() as int, false);
    let due = state.audio_tables_due();
    let out = state.audio_output(adts_frame, timestamp_ns);
    let after = state.after_audio(adts_frame, timestamp_ns);
    let h = sample_heads(due, state.cc_pat, state.cc_pmt, PID_AUDIO, state.cc_audio, count);
    assert(pes.len() == 14 + adts_frame.len());
    lemma_heads_of_output(
        due,
        pmt_section_av(PID_VIDEO, PID_VIDEO, PID_AUDIO),
        state.cc_pat,
        state.cc_pmt,
        pes,
        PID_AUDIO,
        state.cc_audio,
        None,
    );
    assert(heads(out) == h);
    lemma_sample_heads_continuous(
        due,
        state.cc_pat,
        state.cc_pmt,
        PID_AUDIO,
        state.cc_audio,
        count,
        pid,
        counter(state, pid),
    );
    lemma_cc_after(state.cc_audio, count);
    assert(after.cc_audio == cc_after(state.cc_audio, count));
    assert(after.cc_video == state.cc_video);
    assert(after.cc_pat == if due {
        next_cc(state.cc_pat)
    } else {
        state.cc_pat
    });
    assert(after.cc_pmt == if due {
        next_cc(state.cc_pmt)
    } else {
        state.cc_pmt
    });
    lemma_counter_moved(counter(state, pid), counter(after, pid), count_pid(h, pid), count, due);
}

/// Over any sequence of samples, the packets of every PID count up by one
/// from packet to packet, modulo 16, without a gap: from the counter that
/// the multiplexer held at first, across every sample and every refresh of
/// the tables.
pub proof fn lemma_run_continuity(state: AvMuxState, samples: Seq<Sample>, pid: int)
    ensures
        continuous_on(heads(state.run_output(samples)), pid, counter(state, pid)),
        (counter(state.run(samples), pid) - (counter(state, pid) + count_pid(
            heads(state.run_output(samples)),
            pid,
        ))) % 16 == 0,
    decreases samples.len(),
{
    if samples.len() == 0 {
        assert(heads(Seq::<u8>::empty()) =~= Seq::<(int, int)>::empty());
    } else {
        let before = samples.drop_last();
        let mid = state.run(before);
        let a = state.run_output(before);
        let b = mid.sample_output(samples.last());
        lemma_run_continuity(state, before, pid);
        match samples.last() {
            Sample::Video { timestamp_ns, annexb } => {
                lemma_video_continuity(mid, annexb, timestamp_ns, pid);
            },
            Sample::Audio { timestamp_ns, adts_frame } => {
                lemma_audio_continuity(mid, adts_frame, timestamp_ns, pid);
            },
        }
        lemma_run_output_is_ts_stream(state, before);
        lemma_sample_output_is_ts_stream(mid, samples.last());
        lemma_continuity_step(
            a,
            b,
            pid,
            counter(state, pid),
            counter(mid, pid),
            counter(mid.after_sample(samples.last()), pid),
        );
    }
}

/// The counter that a video-only multiplexer holds for a PID.
pub open spec fn video_counter(state: VideoMuxState, pid: int) -> int {
    if pid == PID_PAT {
        state.cc_pat as int
    } else if pid == PID_PMT {
        state.cc_pmt as int
    } else if pid == PID_VIDEO {
        state.cc_video as int
    } else {
        0
    }
}

/// Within what a frame produces on a video-only multiplexer, the packets of
/// every PID count up from the counter that the multiplexer held for it,
/// and the multiplexer then holds the counter that follows the last of them.
pub proof fn lemma_frame_continuity(state: VideoMuxState, annexb: Seq<u8>, pts_90k: u64, pid: int)
    ensures
        continuous_on(heads(state.output(annexb, pts_90k)), pid, video_counter(state, pid)),
        (video_counter(state.advance(annexb, pts_90k), pid) - (video_counter(state, pid)
            + count_pid(heads(state.output(annexb, pts_90k)), pid))) % 16 == 0,
{
    let pts = state.pts_for(pts_90k);
    let pes = pes_packet(STREAM_ID_VIDEO, pts, annexb);
    let count = ts_packet_count(pes.len() as int, true);
    let due = state.tables_due();
    let out = state.output(annexb, pts_90k);
    let after = state.advance(annexb, pts_90k);
    let h = sample_heads(due, state.cc_pat, state.cc_pmt, PID_VIDEO, state.cc_video, count);
    assert(pes.len() == 14 + annexb.len());
    lemma_heads_of_output(
        due,
        pmt_section(PID_VIDEO, PID_VIDEO),
        state.cc_pat,
        state.cc_pmt,
        pes,
        PID_VIDEO,
        state.cc_video,
        Some(pts),
    );
    assert(heads(out) == h);
    lemma_sample_heads_continuous(
        due,
        state.cc_pat,
        state.cc_pmt,
        PID_VIDEO,
        state.cc_video,
        count,
        pid,
        video_counter(state, pid),
    );
    lemma_cc_after(state.cc_video, count);
    assert(after.cc_video == cc_after(state.cc_video, count));
    lemma_counter_moved(
        video_counter(state, pid),
        video_counter(after, pid),
        count_pid(h, pid),
        count,
        due,
    );
}

/// Over any sequence of frames on a video-only multiplexer, the packets of
/// every PID count up by one from packet to packet, modulo 16, without a gap.
pub proof fn lemma_video_run_continuity(state: VideoMuxState, frames: Seq<TimedUnit>, pid: int)
    ensures
        continuous_on(heads(state.run_output(frames)), pid, video_counter(state, pid)),
        (video_counter(state.run(frames), pid) - (video_counter(state, pid) + count_pid(
            heads(state.run_output(frames)),
            pid,
        ))) % 16 == 0,
    decreases frames.len(),
{
    if frames.len() == 0 {
        assert(heads(Seq::<u8>::empty()) =~= Seq::<(int, int)>::empty());
    } else {
        let before = frames.drop_last();
        let mid = state.run(before);
        let last = frames.last();
        lemma_video_run_continuity(state, before, pid);
        lemma_frame_continuity(mid, last.annexb, last.pts_90k, pid);
        lemma_video_run_output_is_ts_stream(state, before);
        lemma_video_output_is_ts_stream(mid, last.annexb, last.pts_90k);
        lemma_continuity_step(
            state.run_output(before),
            mid.output(last.annexb, last.pts_90k),
            pid,
            video_counter(state, pid),
            video_counter(mid, pid),
            video_counter(mid.advance(last.annexb, last.pts_90k), pid),
        );
    }
}

} // verus!
