//! The headers in front of video and audio payloads.

use vstd::prelude::*;
use crate::parser::annexb::{
    annexb_form, annexb_shaped, is_annexb, lemma_annexb_form, is_valid_h264_nal_type, length_prefixed_units,
    looks_like_length_prefixed, nal_type, nal_type_of, valid_nal_type,
};

verus! {

/// Usual length of the header in front of a video payload.
pub const VIDEO_HEADER_LEN: usize = 21;

/// Shortest header in front of a video payload.
pub const VIDEO_HEADER_MIN_LEN: usize = 18;

/// Longest header in front of a video payload that is looked for.
pub const VIDEO_HEADER_MAX_SCAN_LEN: usize = 24;

/// Length of the header in front of an audio payload.
pub const AUDIO_HEADER_LEN: usize = 17;

/// Kind of a video frame that carries a sequence parameter set.
pub const FRAME_KIND_SPS: u8 = 0x01;

/// Kind of a video frame that carries a picture parameter set.
pub const FRAME_KIND_PPS: u8 = 0x02;

/// Kind of a video frame that carries an IDR picture.
pub const FRAME_KIND_IDR: u8 = 0x04;

/// Kind of an audio frame that carries an AudioSpecificConfig.
pub const AUDIO_KIND_ASC: u8 = 0x01;

/// Kind of an audio frame that carries raw AAC.
pub const AUDIO_KIND_AAC: u8 = 0x02;

/// Offset of the kind byte in either header.
pub const KIND_OFFSET: usize = 4;

/// Offset of the eight-byte timestamp in either header.
pub const TIMESTAMP_OFFSET: usize = 9;

/// What a frame holds: its kind, its timestamp in nanoseconds, its payload.
pub struct Frame {
    pub kind: u8,
    pub timestamp_ns: u64,
    pub payload: Seq<u8>,
}

/// A video frame whose payload borrows from the message it came in.
#[derive(Clone, Copy)]
pub struct VideoFrame<'a> {
    pub kind: u8,
    pub timestamp_ns: u64,
    pub payload: &'a [u8],
}

impl<'a> View for VideoFrame<'a> {
    type V = Frame;

    open spec fn view(&self) -> Frame {
        Frame { kind: self.kind, timestamp_ns: self.timestamp_ns, payload: self.payload@ }
    }
}

/// An audio frame whose payload borrows from the message it came in.
#[derive(Clone, Copy)]
pub struct AudioFrame<'a> {
    pub kind: u8,
    pub timestamp_ns: u64,
    pub payload: &'a [u8],
}

impl<'a> View for AudioFrame<'a> {
    type V = Frame;

    open spec fn view(&self) -> Frame {
        Frame { kind: self.kind, timestamp_ns: self.timestamp_ns, payload: self.payload@ }
    }
}

/// The unsigned integer that eight bytes of `d` spell from `at`, most
/// significant first.
pub open spec fn be64(d: Seq<u8>, at: int) -> u64 {
    (d[at] * 0x100_0000_0000_0000 + d[at + 1] * 0x1_0000_0000_0000 + d[at + 2] * 0x100_0000_0000
        + d[at + 3] * 0x1_0000_0000 + d[at + 4] * 0x100_0000 + d[at + 5] * 0x1_0000 + d[at + 6]
        * 0x100 + d[at + 7]) as u64
}

/// Reads eight bytes as a big-endian integer.
fn read_be64(data: &[u8], at: usize) -> (n: u64)
    requires
        at + 8 <= data@.len(),
    ensures
        n == be64(data@, at as int),
{
    (data[at] as u64) * 0x100_0000_0000_0000 + (data[at + 1] as u64) * 0x1_0000_0000_0000 + (
    data[at + 2] as u64) * 0x100_0000_0000 + (data[at + 3] as u64) * 0x1_0000_0000 + (data[at
        + 4] as u64) * 0x100_0000 + (data[at + 5] as u64) * 0x1_0000 + (data[at + 6] as u64)
        * 0x100 + (data[at + 7] as u64)
}

/// Whether `d` begins with the bytes `M`, `R` and the stream's tag.
pub open spec fn has_magic(d: Seq<u8>, tag: u8) -> bool {
    d.len() >= 3 && d[0] == 0x4D && d[1] == 0x52 && d[2] == tag
}

/// Whether `p` can be the payload of a video frame: it is not empty, and it
/// begins with a start code, or is a complete sequence of NAL units behind
/// length prefixes of four, three or two bytes, or begins with a valid NAL
/// unit type.
pub open spec fn looks_like_h264(p: Seq<u8>) -> bool {
    p.len() > 0 && (annexb_shaped(p) || length_prefixed_units(p, 4) is Some
        || length_prefixed_units(p, 3) is Some || length_prefixed_units(p, 2) is Some
        || valid_nal_type(nal_type(p[0])))
}

/// Tests whether a payload looks like H.264.
pub fn looks_like_h264_payload(payload: &[u8]) -> (yes: bool)
    ensures
        yes == looks_like_h264(payload@),
{
    if payload.len() == 0 {
        return false;
    }
    if is_annexb(payload) {
        return true;
    }
    if looks_like_length_prefixed(payload, 4) || looks_like_length_prefixed(payload, 3)
        || looks_like_length_prefixed(payload, 2) {
        return true;
    }
    is_valid_h264_nal_type(nal_type_of(payload[0]))
}

/// A payload looks like H.264 exactly when it has an Annex-B form: what
/// passes for a payload is never dropped for want of a conversion.
pub proof fn lemma_plausible_payload_has_form(p: Seq<u8>)
    ensures
        looks_like_h264(p) <==> annexb_form(p).len() > 0,
{
    lemma_annexb_form(p);
}

/// Whether a payload that looks like H.264 begins at `offset`.
pub open spec fn plausible_at(d: Seq<u8>, offset: int) -> bool {
    0 <= offset < d.len() && looks_like_h264(d.skip(offset))
}

/// The first offset from `from` up to, not including, `to` at which a
/// plausible payload begins.
pub open spec fn first_plausible(d: Seq<u8>, from: int, to: int) -> Option<int>
    decreases to - from,
{
    if from >= to {
        None
    } else if plausible_at(d, from) {
        Some(from)
    } else {
        first_plausible(d, from + 1, to)
    }
}

/// Where the payload of a video message begins: at the usual offset if a
/// plausible payload begins there, else at the shortest, else at the first
/// offset from the shortest to the longest at which one does.
pub open spec fn video_payload_offset(d: Seq<u8>) -> Option<int> {
    if plausible_at(d, VIDEO_HEADER_LEN as int) {
        Some(VIDEO_HEADER_LEN as int)
    } else if plausible_at(d, VIDEO_HEADER_MIN_LEN as int) {
        Some(VIDEO_HEADER_MIN_LEN as int)
    } else {
        first_plausible(d, VIDEO_HEADER_MIN_LEN as int, VIDEO_HEADER_MAX_SCAN_LEN + 1)
    }
}

/// Past the end of the data no payload begins.
proof fn lemma_none_plausible_past_end(d: Seq<u8>, from: int, to: int)
    requires
        d.len() <= from,
    ensures
        first_plausible(d, from, to) is None,
    decreases to - from,
{
    if from < to {
        lemma_none_plausible_past_end(d, from + 1, to);
    }
}

/// Tests whether a plausible payload begins at `offset`.
fn payload_at(data: &[u8], offset: usize) -> (yes: bool)
    ensures
        yes == plausible_at(data@, offset as int),
{
    if offset >= data.len() {
        return false;
    }
    let tail: &[u8] = vstd::slice::slice_subrange(data, offset, data.len());
    assert(tail@ =~= data@.skip(offset as int));
    looks_like_h264_payload(tail)
}

/// Finds where the payload of a video message begins.
pub fn detect_video_payload_offset(data: &[u8]) -> (r: Option<usize>)
    ensures
        match r {
            Some(offset) => video_payload_offset(data@) == Some(offset as int) && offset
                < data@.len(),
            None => video_payload_offset(data@) is None,
        },
{
    if payload_at(data, VIDEO_HEADER_LEN) {
        return Some(VIDEO_HEADER_LEN);
    }
    if payload_at(data, VIDEO_HEADER_MIN_LEN) {
        return Some(VIDEO_HEADER_MIN_LEN);
    }
    let end: usize = if data.len() < VIDEO_HEADER_MAX_SCAN_LEN + 1 {
        data.len()
    } else {
        VIDEO_HEADER_MAX_SCAN_LEN + 1
    };
    let mut offset: usize = VIDEO_HEADER_MIN_LEN;
    while offset < end
        invariant
            !plausible_at(data@, VIDEO_HEADER_LEN as int),
            !plausible_at(data@, VIDEO_HEADER_MIN_LEN as int),
            VIDEO_HEADER_MIN_LEN <= offset,
            end <= VIDEO_HEADER_MAX_SCAN_LEN + 1,
            end <= data@.len(),
            end == data@.len() || end == VIDEO_HEADER_MAX_SCAN_LEN + 1,
            first_plausible(data@, VIDEO_HEADER_MIN_LEN as int, VIDEO_HEADER_MAX_SCAN_LEN + 1)
                == first_plausible(data@, offset as int, VIDEO_HEADER_MAX_SCAN_LEN + 1),
        decreases end - offset,
    {
        if payload_at(data, offset) {
            return Some(offset);
        }
        offset += 1;
    }
    proof {
        if offset < VIDEO_HEADER_MAX_SCAN_LEN + 1 {
            lemma_none_plausible_past_end(data@, offset as int, VIDEO_HEADER_MAX_SCAN_LEN + 1);
        }
    }
    None
}

/// The frame that a video message holds: behind the magic `M R 01`, the kind
/// at offset 4, the timestamp at offset 9, and the payload from the offset
/// at which a plausible payload is found.
pub open spec fn parsed_video(d: Seq<u8>) -> Option<Frame> {
    if d.len() >= VIDEO_HEADER_MIN_LEN && has_magic(d, 0x01) && video_payload_offset(d) is Some {
        Some(
            Frame {
                kind: d[KIND_OFFSET as int],
                timestamp_ns: be64(d, TIMESTAMP_OFFSET as int),
                payload: d.skip(video_payload_offset(d)->0),
            },
        )
    } else {
        None
    }
}

/// What an optional video frame holds.
pub open spec fn opt_video(f: Option<VideoFrame<'_>>) -> Option<Frame> {
    match f {
        Some(frame) => Some(frame@),
        None => None,
    }
}

/// What an optional audio frame holds.
pub open spec fn opt_audio(f: Option<AudioFrame<'_>>) -> Option<Frame> {
    match f {
        Some(frame) => Some(frame@),
        None => None,
    }
}

/// Decodes a video message. Returns `None` for a message that is too short,
/// lacks the magic, or holds no plausible payload.
pub fn parse_video_packet<'a>(data: &'a [u8]) -> (r: Option<VideoFrame<'a>>)
    ensures
        opt_video(r) == parsed_video(data@),
{
    if data.len() < VIDEO_HEADER_MIN_LEN {
        return None;
    }
    if data[0] != 0x4D || data[1] != 0x52 || data[2] != 0x01 {
        return None;
    }
    let payload_offset: usize = match detect_video_payload_offset(data) {
        Some(offset) => offset,
        None => {
            return None;
        },
    };
    let kind: u8 = data[KIND_OFFSET];
    let timestamp_ns: u64 = read_be64(data, TIMESTAMP_OFFSET);
    let payload: &'a [u8] = vstd::slice::slice_subrange(data, payload_offset, data.len());
    assert(payload@ =~= data@.skip(payload_offset as int));
    Some(VideoFrame { kind, timestamp_ns, payload })
}

/// The frame that an audio message holds: behind the magic `M R 02`, the kind
/// at offset 4, the timestamp at offset 9, and the payload from offset 17.
pub open spec fn parsed_audio(d: Seq<u8>) -> Option<Frame> {
    if d.len() >= AUDIO_HEADER_LEN && has_magic(d, 0x02) {
        Some(
            Frame {
                kind: d[KIND_OFFSET as int],
                timestamp_ns: be64(d, TIMESTAMP_OFFSET as int),
                payload: d.skip(AUDIO_HEADER_LEN as int),
            },
        )
    } else {
        None
    }
}

/// Decodes an audio message. Returns `None` for a message that is too short
/// or lacks the magic.
pub fn parse_audio_packet<'a>(data: &'a [u8]) -> (r: Option<AudioFrame<'a>>)
    ensures
        opt_audio(r) == parsed_audio(data@),
{
    if data.len() < AUDIO_HEADER_LEN {
        return None;
    }
    if data[0] != 0x4D || data[1] != 0x52 || data[2] != 0x02 {
        return None;
    }
    let kind: u8 = data[KIND_OFFSET];
    let timestamp_ns: u64 = read_be64(data, TIMESTAMP_OFFSET);
    let payload: &'a [u8] = vstd::slice::slice_subrange(data, AUDIO_HEADER_LEN, data.len());
    assert(payload@ =~= data@.skip(AUDIO_HEADER_LEN as int));
    Some(AudioFrame { kind, timestamp_ns, payload })
}

} // verus!
