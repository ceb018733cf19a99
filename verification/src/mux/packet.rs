//! Transport packets: the fixed header, and the packets that carry a PES.

use vstd::prelude::*;
use crate::mux::pes::{pcr_field, write_pcr};
use crate::octets::{append, append_filler, filler};

verus! {

/// Size of one transport packet.
pub const TS_PACKET_SIZE: usize = 188;

/// PID of the program association table.
pub const PID_PAT: u16 = 0x0000;

/// PID of the program map table.
pub const PID_PMT: u16 = 0x0100;

/// PID of the H.264 elementary stream.
pub const PID_VIDEO: u16 = 0x0101;

/// PID of the AAC elementary stream.
pub const PID_AUDIO: u16 = 0x0102;

/// The upper five bits of a 13-bit PID.
pub fn pid_high(pid: u16) -> (r: u8)
    ensures
        r == (pid / 256) % 32,
{
    assert(((pid >> 8) as u8 & 0x1F) == (pid / 256) % 32 && (pid >> 8) <= 255) by (bit_vector);
    (pid >> 8) as u8 & 0x1F
}

/// The lower eight bits of a PID.
pub fn pid_low(pid: u16) -> (r: u8)
    ensures
        r == pid % 256,
{
    assert((pid & 0xFF) == pid % 256) by (bit_vector);
    (pid & 0xFF) as u8
}

/// The four header bytes of a transport packet: sync byte, PID with the
/// payload-unit-start flag, and the continuity counter under the flags that
/// say whether an adaptation field precedes the payload.
pub open spec fn ts_header(pid: u16, unit_start: bool, adaptation: bool, cc: u8) -> Seq<u8> {
    seq![
        0x47u8,
        ((if unit_start { 0x40int } else { 0int }) + (pid / 256) % 32) as u8,
        (pid % 256) as u8,
        ((if adaptation { 0x30int } else { 0x10int }) + cc % 16) as u8,
    ]
}

/// Appends the four header bytes of a transport packet to `out`.
pub fn push_ts_header(out: &mut Vec<u8>, pid: u16, unit_start: bool, adaptation: bool, cc: u8)
    ensures
        final(out)@ == old(out)@ + ts_header(pid, unit_start, adaptation, cc),
{
    let hi: u8 = pid_high(pid);
    let start_flag: u8 = if unit_start { 0x40 } else { 0x00 };
    let control: u8 = if adaptation { 0x30 } else { 0x10 };
    assert(hi < 32 ==> (0x40u8 | hi) == 0x40 + hi && (0x00u8 | hi) == hi) by (bit_vector);
    assert((0x30u8 | (cc & 0x0F)) == 0x30 + cc % 16 && (0x10u8 | (cc & 0x0F)) == 0x10 + cc % 16)
        by (bit_vector);
    out.push(0x47);
    out.push(start_flag | hi);
    out.push(pid_low(pid));
    out.push(control | (cc & 0x0F));
    assert(out@ =~= old(out)@ + ts_header(pid, unit_start, adaptation, cc));
}

/// The counter that follows `cc` on the same PID.
pub open spec fn next_cc(cc: u8) -> u8 {
    ((cc + 1) % 16) as u8
}

/// Advances a continuity counter by one, modulo 16.
pub fn bump_cc(cc: u8) -> (r: u8)
    ensures
        r == next_cc(cc),
{
    assert((cc.wrapping_add(1) & 0x0F) == (cc + 1) % 16) by (bit_vector);
    cc.wrapping_add(1) & 0x0F
}

/// Bytes of PES data that the next transport packet takes when `remain` are
/// left: 176 at most beside a clock reference, 184 at most without one.
pub open spec fn ts_payload_len(remain: int, with_pcr: bool) -> int {
    let room = if with_pcr {
        176int
    } else {
        184int
    };
    if remain < room {
        remain
    } else {
        room
    }
}

/// The adaptation field, length byte included, of a packet that takes its
/// payload from `remain` bytes: with a clock reference, the PCR flag, the
/// reference and padding; without one, nothing when the payload fills the
/// packet, else just enough padding to reach 188 bytes.
pub open spec fn adaptation_field(remain: int, pcr: Option<u64>) -> Seq<u8> {
    match pcr {
        Some(p) => {
            let n = ts_payload_len(remain, true);
            seq![(183 - n) as u8, 0x10u8] + pcr_field(p) + filler(176 - n)
        },
        None => {
            if remain >= 184 {
                Seq::empty()
            } else if remain == 183 {
                seq![0x00u8]
            } else {
                seq![(183 - remain) as u8, 0x00u8] + filler(182 - remain)
            }
        },
    }
}

/// The transport packet that carries the head of `rest`.
pub open spec fn pes_ts_packet(
    rest: Seq<u8>,
    pid: u16,
    unit_start: bool,
    cc: u8,
    pcr: Option<u64>,
) -> Seq<u8> {
    let field = adaptation_field(rest.len() as int, pcr);
    ts_header(pid, unit_start, field.len() > 0, cc) + field + rest.take(
        ts_payload_len(rest.len() as int, pcr is Some),
    )
}

/// The transport packets that carry `rest`, the first with the given flags
/// and clock reference, the following ones without either, the continuity
/// counter advancing by one from packet to packet.
pub open spec fn pes_ts_packets(
    rest: Seq<u8>,
    pid: u16,
    unit_start: bool,
    cc: u8,
    pcr: Option<u64>,
) -> Seq<u8>
    decreases rest.len(),
{
    if rest.len() == 0 {
        Seq::empty()
    } else {
        pes_ts_packet(rest, pid, unit_start, cc, pcr) + pes_ts_packets(
            rest.skip(ts_payload_len(rest.len() as int, pcr is Some)),
            pid,
            false,
            next_cc(cc),
            None,
        )
    }
}

/// Number of transport packets that `remain` bytes of PES data take.
pub open spec fn ts_packet_count(remain: int, with_pcr: bool) -> nat
    decreases remain,
{
    if remain <= 0 {
        0
    } else {
        1 + ts_packet_count(remain - ts_payload_len(remain, with_pcr), false)
    }
}

/// The continuity counter after `n` packets.
pub open spec fn cc_after(cc: u8, n: nat) -> u8
    decreases n,
{
    if n == 0 {
        cc
    } else {
        next_cc(cc_after(cc, (n - 1) as nat))
    }
}

/// Appends to `out` the transport packet that carries the head of `rest`,
/// and returns how many bytes of `rest` it took.
fn push_pes_ts_packet(
    out: &mut Vec<u8>,
    rest: &[u8],
    pid: u16,
    unit_start: bool,
    cc: u8,
    pcr: Option<u64>,
) -> (taken: usize)
    requires
        rest@.len() > 0,
    ensures
        taken == ts_payload_len(rest@.len() as int, pcr is Some),
        final(out)@ == old(out)@ + pes_ts_packet(rest@, pid, unit_start, cc, pcr),
{
    let remain: usize = rest.len();
    match pcr {
        Some(reference_clock) => {
            // adaptation_field_length counts the flags, the clock reference and the padding.
            let min_adaptation_len: usize = 7;
            let max_payload: usize = 184 - (1 + min_adaptation_len);
            let payload_len: usize = if remain < max_payload {
                remain
            } else {
                max_payload
            };
            let adaptation_len: usize = 184 - payload_len - 1;

            push_ts_header(out, pid, unit_start, true, cc);
            out.push(adaptation_len as u8);
            out.push(0x10);
            let mut reference: Vec<u8> = vec![0x00, 0x00, 0x00, 0x00, 0x00, 0x00];
            write_pcr(reference.as_mut_slice(), reference_clock);
            assert(reference@ =~= reference@.take(6));
            append(out, reference.as_slice());
            append_filler(out, adaptation_len - min_adaptation_len);
            append(out, vstd::slice::slice_subrange(rest, 0, payload_len));
            proof {
                let field = seq![adaptation_len as u8, 0x10u8] + pcr_field(reference_clock)
                    + filler(176 - payload_len);
                assert(field == adaptation_field(remain as int, pcr));
                assert(field.len() > 0);
                assert(out@ =~= old(out)@ + (ts_header(pid, unit_start, true, cc) + field
                    + rest@.take(payload_len as int)));
            }
            payload_len
        },
        None => {
            if remain >= 184 {
                push_ts_header(out, pid, unit_start, false, cc);
                append(out, vstd::slice::slice_subrange(rest, 0, 184));
                proof {
                    assert(adaptation_field(remain as int, pcr) =~= Seq::<u8>::empty());
                    assert(out@ =~= old(out)@ + (ts_header(pid, unit_start, false, cc)
                        + Seq::<u8>::empty() + rest@.take(184)));
                }
                184
            } else {
                let stuffing: usize = 184 - remain;
                let adaptation_field_len: usize = stuffing - 1;
                push_ts_header(out, pid, unit_start, true, cc);
                out.push(adaptation_field_len as u8);
                if adaptation_field_len > 0 {
                    out.push(0x00);
                    append_filler(out, adaptation_field_len - 1);
                }
                append(out, rest);
                proof {
                    let field = adaptation_field(remain as int, pcr);
                    assert(field.len() > 0);
                    assert(rest@ =~= rest@.take(remain as int));
                    assert(out@ =~= old(out)@ + (ts_header(pid, unit_start, true, cc) + field
                        + rest@.take(remain as int)));
                }
                remain
            }
        },
    }
}

/// Splits a PES packet into transport packets. With `pcr_90k` the first
/// packet carries that clock reference.
pub fn packetize_pes(pes: &[u8], pid: u16, cc: &mut u8, pcr_90k: Option<u64>) -> (out: Vec<u8>)
    ensures
        out@ == pes_ts_packets(pes@, pid, true, *old(cc), pcr_90k),
        *final(cc) == cc_after(*old(cc), ts_packet_count(pes@.len() as int, pcr_90k is Some)),
{
    let mut out: Vec<u8> = Vec::new();
    let mut offset: usize = 0;
    let mut first: bool = true;
    let ghost mut sent: nat = 0;
    proof {
        assert(pes@.skip(0) =~= pes@);
    }

    while offset < pes.len()
        invariant
            offset <= pes@.len(),
            first ==> offset == 0,
            out@ + pes_ts_packets(
                pes@.skip(offset as int),
                pid,
                first,
                *cc,
                if first {
                    pcr_90k
                } else {
                    None
                },
            ) == pes_ts_packets(pes@, pid, true, *old(cc), pcr_90k),
            *cc == cc_after(*old(cc), sent),
            sent + ts_packet_count(pes@.len() - offset, first && pcr_90k is Some)
                == ts_packet_count(pes@.len() as int, pcr_90k is Some),
        decreases pes@.len() - offset,
    {
        let ghost before = out@;
        let ghost rest = pes@.skip(offset as int);
        let pcr_now: Option<u64> = if first {
            pcr_90k
        } else {
            None
        };
        let taken: usize = push_pes_ts_packet(
            &mut out,
            vstd::slice::slice_subrange(pes, offset, pes.len()),
            pid,
            first,
            *cc,
            pcr_now,
        );
        proof {
            assert(pes@.subrange(offset as int, pes@.len() as int) =~= rest);
            assert(rest.skip(taken as int) =~= pes@.skip(offset + taken));
            assert(before + pes_ts_packets(rest, pid, first, *cc, pcr_now) =~= out@
                + pes_ts_packets(pes@.skip(offset + taken), pid, false, next_cc(*cc), None));
            sent = sent + 1;
        }
        *cc = bump_cc(*cc);
        offset += taken;
        first = false;
    }
    out
}

} // verus!
