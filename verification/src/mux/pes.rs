//! Packetized elementary stream framing and its timestamps.

use vstd::prelude::*;
use crate::octets::append;

verus! {

/// Ticks of the 90 kHz clock that `ts_ns` nanoseconds span, with the product
/// held at the largest `u64` before the division.
pub open spec fn ticks_90k(ts_ns: u64) -> u64 {
    if ts_ns * 90_000 <= u64::MAX {
        ((ts_ns * 90_000) / 1_000_000_000) as u64
    } else {
        (u64::MAX / 1_000_000_000) as u64
    }
}

/// Converts a nanosecond timestamp to 90 kHz ticks.
pub fn ns_to_90k(ts_ns: u64) -> (ticks: u64)
    ensures
        ticks == ticks_90k(ts_ns),
{
    if ts_ns <= u64::MAX / 90_000 {
        ts_ns * 90_000 / 1_000_000_000
    } else {
        u64::MAX / 1_000_000_000
    }
}

/// The five bytes that carry a presentation timestamp in a PES header: the
/// low 33 bits of `pts_90k` in groups of 3, 15 and 15 bits under the prefix
/// `0010`, each group closed by a marker bit.
pub open spec fn pts_field(pts_90k: u64) -> Seq<u8> {
    let p = pts_90k % 0x2_0000_0000;
    seq![
        (0x21 + ((p / 0x4000_0000) % 8) * 2) as u8,
        ((p / 0x40_0000) % 256) as u8,
        (((p / 0x8000) % 128) * 2 + 1) as u8,
        ((p / 0x80) % 256) as u8,
        ((p % 128) * 2 + 1) as u8,
    ]
}

/// The timestamp that the five bytes of a PES header's PTS field carry.
#[verifier::opaque]
pub open spec fn field_pts(field: Seq<u8>) -> int {
    ((field[0] / 2) % 8) * 0x4000_0000 + field[1] * 0x40_0000 + (field[2] / 2) * 0x8000 + field[3]
        * 0x80 + field[4] / 2
}

/// The PTS field carries the low 33 bits of the timestamp that it was made of.
pub proof fn lemma_pts_field_carries(pts_90k: u64)
    ensures
        field_pts(pts_field(pts_90k)) == pts_90k % 0x2_0000_0000,
{
    reveal(field_pts);
    let p: u64 = pts_90k % 0x2_0000_0000;
    let a = (p / 0x4000_0000) % 8;
    let b = (p / 0x40_0000) % 256;
    let c = (p / 0x8000) % 128;
    let d = (p / 0x80) % 256;
    let e = p % 128;
    assert(p == ((p / 0x4000_0000) % 8) * 0x4000_0000 + ((p / 0x40_0000) % 256) * 0x40_0000 + ((p
        / 0x8000) % 128) * 0x8000 + ((p / 0x80) % 256) * 0x80 + p % 128) by (bit_vector)
        requires
            p < 0x2_0000_0000,
    ;
    let field = pts_field(pts_90k);
    assert(field[0] == 0x21 + a * 2);
    assert(field[1] == b);
    assert(field[2] == c * 2 + 1);
    assert(field[3] == d);
    assert(field[4] == e * 2 + 1);
    assert((field[0] / 2) % 8 == a);
    assert(field[2] / 2 == c);
    assert(field[4] / 2 == e);
}

/// Of two timestamps below 2^33, the later one is carried as the later one.
pub proof fn lemma_pts_field_keeps_order(earlier: u64, later: u64)
    requires
        earlier < later < 0x2_0000_0000,
    ensures
        field_pts(pts_field(earlier)) < field_pts(pts_field(later)),
{
    lemma_pts_field_carries(earlier);
    lemma_pts_field_carries(later);
}

/// Encodes a presentation timestamp for a PES header.
pub fn encode_pts(pts_90k: u64) -> (field: [u8; 5])
    ensures
        field@ == pts_field(pts_90k),
{
    let pts: u64 = pts_90k & 0x1_FFFF_FFFF;
    assert(pts == pts_90k % 0x2_0000_0000 && (pts >> 30) <= 7 && ((0x2u8 << 4) | (((pts >> 30) as u8
        & 0x07) << 1) | 0x01) == 0x21 + ((pts / 0x4000_0000) % 8) * 2 && ((pts >> 22) & 0xFF) == (
    pts / 0x40_0000) % 256 && ((((pts >> 15) as u8 & 0x7F) << 1) | 0x01) == ((pts / 0x8000) % 128)
        * 2 + 1 && ((pts >> 7) & 0xFF) == (pts / 0x80) % 256 && ((((pts as u8) & 0x7F) << 1) | 0x01)
        == (pts % 128) * 2 + 1) by (bit_vector)
        requires
            pts == pts_90k & 0x1_FFFF_FFFF,
    ;
    let field: [u8; 5] = [
        (0x2 << 4) | (((pts >> 30) as u8 & 0x07) << 1) | 0x01,
        ((pts >> 22) & 0xFF) as u8,
        ((#[verifier::truncate] ((pts >> 15) as u8) & 0x7F) << 1) | 0x01,
        ((pts >> 7) & 0xFF) as u8,
        ((#[verifier::truncate] (pts as u8) & 0x7F) << 1) | 0x01,
    ];
    assert(field@ =~= pts_field(pts_90k));
    field
}

/// The six bytes of a program clock reference: the low 33 bits of `pcr_90k`
/// as the base, six reserved bits set, and an extension of zero.
pub open spec fn pcr_field(pcr_90k: u64) -> Seq<u8> {
    let base = pcr_90k % 0x2_0000_0000;
    seq![
        (base / 0x200_0000) as u8,
        ((base / 0x2_0000) % 256) as u8,
        ((base / 0x200) % 256) as u8,
        ((base / 2) % 256) as u8,
        ((base % 2) * 128 + 0x7E) as u8,
        0x00u8,
    ]
}

/// Writes a program clock reference into the first six bytes of `out`.
pub fn write_pcr(out: &mut [u8], pcr_90k: u64)
    requires
        old(out)@.len() >= 6,
    ensures
        final(out)@.len() == old(out)@.len(),
        final(out)@.take(6) == pcr_field(pcr_90k),
        final(out)@.skip(6) == old(out)@.skip(6),
{
    let base: u64 = pcr_90k & 0x1_FFFF_FFFF;
    assert(base == pcr_90k % 0x2_0000_0000 && ((base >> 25) & 0xFF) == base / 0x200_0000 && ((base
        >> 17) & 0xFF) == (base / 0x2_0000) % 256 && ((base >> 9) & 0xFF) == (base / 0x200) % 256
        && ((base >> 1) & 0xFF) == (base / 2) % 256 && (base & 0x01) <= 1 && ((((base & 0x01) as u8)
        << 7) | 0x7E) == (base % 2) * 128 + 0x7E) by (bit_vector)
        requires
            base == pcr_90k & 0x1_FFFF_FFFF,
    ;
    out[0] = ((base >> 25) & 0xFF) as u8;
    out[1] = ((base >> 17) & 0xFF) as u8;
    out[2] = ((base >> 9) & 0xFF) as u8;
    out[3] = ((base >> 1) & 0xFF) as u8;
    out[4] = (((base & 0x01) as u8) << 7) | 0x7E;
    out[5] = 0x00;
    assert(out@.take(6) =~= pcr_field(pcr_90k));
    assert(out@.skip(6) =~= old(out)@.skip(6));
}

/// Stream id of the video elementary stream.
pub const STREAM_ID_VIDEO: u8 = 0xE0;

/// Stream id of the audio elementary stream.
pub const STREAM_ID_AUDIO: u8 = 0xC0;

/// A PES packet: start code prefix, stream id, a packet length of zero, the
/// flags of a header that holds a PTS and nothing else, the PTS, the payload.
pub open spec fn pes_packet(stream_id: u8, pts_90k: u64, payload: Seq<u8>) -> Seq<u8> {
    seq![0x00u8, 0x00, 0x01, stream_id, 0x00, 0x00, 0x80, 0x80, 0x05] + pts_field(pts_90k)
        + payload
}

/// Builds the PES packet of one elementary stream unit.
fn build_pes(stream_id: u8, payload: &[u8], pts_90k: u64) -> (pes: Vec<u8>)
    ensures
        pes@ == pes_packet(stream_id, pts_90k, payload@),
{
    let mut pes: Vec<u8> = vec![0x00, 0x00, 0x01, stream_id, 0x00, 0x00, 0x80, 0x80, 0x05];
    let field: [u8; 5] = encode_pts(pts_90k);
    append(&mut pes, field.as_slice());
    append(&mut pes, payload);
    assert(pes@ =~= pes_packet(stream_id, pts_90k, payload@));
    pes
}

/// Builds the PES packet of one H.264 access unit.
pub fn build_h264_pes(annexb: &[u8], pts_90k: u64) -> (pes: Vec<u8>)
    ensures
        pes@ == pes_packet(STREAM_ID_VIDEO, pts_90k, annexb@),
{
    build_pes(STREAM_ID_VIDEO, annexb, pts_90k)
}

/// Builds the PES packet of one ADTS frame.
pub fn build_aac_pes(adts_frame: &[u8], pts_90k: u64) -> (pes: Vec<u8>)
    ensures
        pes@ == pes_packet(STREAM_ID_AUDIO, pts_90k, adts_frame@),
{
    build_pes(STREAM_ID_AUDIO, adts_frame, pts_90k)
}

} // verus!
