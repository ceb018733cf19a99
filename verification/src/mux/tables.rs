//! Program association and program map tables.

use vstd::prelude::*;
use crate::mux::crc::{crc32_mpeg, mpeg_crc32};
use crate::mux::packet::{
    bump_cc, next_cc, pid_high, pid_low, push_ts_header, ts_header, PID_AUDIO, PID_PAT, PID_PMT,
    PID_VIDEO, TS_PACKET_SIZE,
};
use crate::octets::{append, append_filler, be_bytes32, filler};

verus! {

/// `s` with its 12-bit section length, the number of bytes after the third,
/// written into the low half of byte 1 and into byte 2.
pub open spec fn with_section_length(s: Seq<u8>) -> Seq<u8> {
    let n = s.len() - 3;
    s.update(1, ((s[1] / 16) * 16 + (n / 256) % 16) as u8).update(2, (n % 256) as u8)
}

/// Writes the section length into the header of `section`.
pub fn set_section_length(section: &mut [u8])
    requires
        old(section)@.len() >= 3,
    ensures
        final(section)@ == with_section_length(old(section)@),
{
    let n: usize = section.len() - 3;
    let b1: u8 = section[1];
    let section_length: u16 = #[verifier::truncate] (n as u16);
    assert(section_length == n as u16);
    assert((((n as u16) >> 8) as u8 & 0x0F) == (n / 256) % 16 && ((n as u16) & 0xFF) == n % 256
        && ((n as u16) >> 8) <= 255) by (bit_vector);
    let high: u8 = (section_length >> 8) as u8 & 0x0F;
    assert(high < 16 ==> ((b1 & 0xF0) | high) == (b1 / 16) * 16 + high) by (bit_vector);
    section[1] = (b1 & 0xF0) | high;
    section[2] = (section_length & 0xFF) as u8;
}

/// `s` with its last four bytes replaced by the CRC32 of the bytes before them.
pub open spec fn with_crc(s: Seq<u8>) -> Seq<u8> {
    let covered = s.take(s.len() - 4);
    covered + be_bytes32(crc32_mpeg(covered))
}

/// Writes the CRC32 of all bytes but the last four into those four.
pub fn seal_section(section: &mut Vec<u8>)
    requires
        old(section)@.len() >= 4,
    ensures
        final(section)@ == with_crc(old(section)@),
{
    let n: usize = section.len();
    let crc: u32 = mpeg_crc32(vstd::slice::slice_subrange(section.as_slice(), 0, n - 4));
    assert((crc >> 24) == crc / 0x100_0000 && (crc >> 24) <= 255 && ((crc >> 16) & 0xFF) == (crc
        / 0x1_0000) % 256 && ((crc >> 8) & 0xFF) == (crc / 0x100) % 256 && (crc & 0xFF) == crc
        % 256) by (bit_vector);
    section[n - 4] = (crc >> 24) as u8;
    section[n - 3] = ((crc >> 16) & 0xFF) as u8;
    section[n - 2] = ((crc >> 8) & 0xFF) as u8;
    section[n - 1] = (crc & 0xFF) as u8;
    assert(section@ =~= with_crc(old(section)@));
}

/// The bytes of a program association table before its CRC: one program,
/// number 1, whose map table travels on `pmt_pid`.
pub open spec fn pat_body(pmt_pid: u16) -> Seq<u8> {
    seq![
        0x00u8, 0xB0, 0x0D,
        0x00, 0x01,
        0xC1,
        0x00,
        0x00,
        0x00, 0x01,
        (0xE0 + (pmt_pid / 256) % 32) as u8,
        (pmt_pid % 256) as u8,
    ]
}

/// A complete program association table section.
pub open spec fn pat_section(pmt_pid: u16) -> Seq<u8> {
    pat_body(pmt_pid) + be_bytes32(crc32_mpeg(pat_body(pmt_pid)))
}

/// `0xE0 | x` for a five-bit `x`: the reserved bits above a PID's upper half.
fn reserved_over(x: u8) -> (r: u8)
    requires
        x < 32,
    ensures
        r == 0xE0 + x,
{
    assert(x < 32 ==> (0xE0u8 | x) == 0xE0 + x) by (bit_vector);
    0xE0 | x
}

/// Builds the program association table section.
pub fn build_pat_section(pmt_pid: u16) -> (section: Vec<u8>)
    ensures
        section@ == pat_section(pmt_pid),
{
    let mut section: Vec<u8> = vec![
        0x00, 0xB0, 0x00,
        0x00, 0x01,
        0xC1,
        0x00,
        0x00,
        0x00, 0x01,
        reserved_over(pid_high(pmt_pid)),
        pid_low(pmt_pid),
        0x00, 0x00, 0x00, 0x00,
    ];
    set_section_length(section.as_mut_slice());
    assert(section@.take(12) =~= pat_body(pmt_pid));
    seal_section(&mut section);
    section
}

/// The bytes of a program map table before its CRC: program 1 with a single
/// H.264 stream.
pub open spec fn pmt_body(pcr_pid: u16, video_pid: u16) -> Seq<u8> {
    seq![
        0x02u8, 0xB0, 0x12,
        0x00, 0x01,
        0xC1,
        0x00,
        0x00,
        (0xE0 + (pcr_pid / 256) % 32) as u8,
        (pcr_pid % 256) as u8,
        0xF0, 0x00,
        0x1B,
        (0xE0 + (video_pid / 256) % 32) as u8,
        (video_pid % 256) as u8,
        0xF0, 0x00,
    ]
}

/// A complete program map table section for a video-only program.
pub open spec fn pmt_section(pcr_pid: u16, video_pid: u16) -> Seq<u8> {
    pmt_body(pcr_pid, video_pid) + be_bytes32(crc32_mpeg(pmt_body(pcr_pid, video_pid)))
}

/// Builds the program map table section of a video-only program.
pub fn build_pmt_section(pcr_pid: u16, video_pid: u16) -> (section: Vec<u8>)
    ensures
        section@ == pmt_section(pcr_pid, video_pid),
{
    let mut section: Vec<u8> = vec![
        0x02, 0xB0, 0x00,
        0x00, 0x01,
        0xC1,
        0x00,
        0x00,
        reserved_over(pid_high(pcr_pid)),
        pid_low(pcr_pid),
        0xF0, 0x00,
        0x1B,
        reserved_over(pid_high(video_pid)),
        pid_low(video_pid),
        0xF0, 0x00,
        0x00, 0x00, 0x00, 0x00,
    ];
    set_section_length(section.as_mut_slice());
    assert(section@.take(17) =~= pmt_body(pcr_pid, video_pid));
    seal_section(&mut section);
    section
}

/// The bytes of a program map table before its CRC: program 1 with an H.264
/// stream and an ADTS AAC stream.
pub open spec fn pmt_body_av(pcr_pid: u16, video_pid: u16, audio_pid: u16) -> Seq<u8> {
    seq![
        0x02u8, 0xB0, 0x17,
        0x00, 0x01,
        0xC1,
        0x00,
        0x00,
        (0xE0 + (pcr_pid / 256) % 32) as u8,
        (pcr_pid % 256) as u8,
        0xF0, 0x00,
        0x1B,
        (0xE0 + (video_pid / 256) % 32) as u8,
        (video_pid % 256) as u8,
        0xF0, 0x00,
        0x0F,
        (0xE0 + (audio_pid / 256) % 32) as u8,
        (audio_pid % 256) as u8,
        0xF0, 0x00,
    ]
}

/// A complete program map table section for a program with video and audio.
pub open spec fn pmt_section_av(pcr_pid: u16, video_pid: u16, audio_pid: u16) -> Seq<u8> {
    pmt_body_av(pcr_pid, video_pid, audio_pid) + be_bytes32(
        crc32_mpeg(pmt_body_av(pcr_pid, video_pid, audio_pid)),
    )
}

/// Builds the program map table section of a program with video and audio.
pub fn build_pmt_section_av(pcr_pid: u16, video_pid: u16, audio_pid: u16) -> (section: Vec<u8>)
    ensures
        section@ == pmt_section_av(pcr_pid, video_pid, audio_pid),
{
    let mut section: Vec<u8> = vec![
        0x02, 0xB0, 0x00,
        0x00, 0x01,
        0xC1,
        0x00,
        0x00,
        reserved_over(pid_high(pcr_pid)),
        pid_low(pcr_pid),
        0xF0, 0x00,
        0x1B,
        reserved_over(pid_high(video_pid)),
        pid_low(video_pid),
        0xF0, 0x00,
        0x0F,
        reserved_over(pid_high(audio_pid)),
        pid_low(audio_pid),
        0xF0, 0x00,
        0x00, 0x00, 0x00, 0x00,
    ];
    set_section_length(section.as_mut_slice());
    assert(section@.take(22) =~= pmt_body_av(pcr_pid, video_pid, audio_pid));
    seal_section(&mut section);
    section
}

/// The single transport packet that carries a table section: header with the
/// payload-unit-start flag, a zero pointer field, at most 183 bytes of the
/// section, and padding up to 188 bytes.
pub open spec fn psi_packet(section: Seq<u8>, pid: u16, cc: u8) -> Seq<u8> {
    let body = if section.len() <= 183 {
        section
    } else {
        section.take(183)
    };
    ts_header(pid, true, false, cc) + seq![0x00u8] + body + filler(183 - body.len())
}

/// Packs a table section into one transport packet and advances the PID's
/// continuity counter.
pub fn packetize_psi(section: &[u8], pid: u16, cc: &mut u8) -> (packet: Vec<u8>)
    ensures
        packet@ == psi_packet(section@, pid, *old(cc)),
        *final(cc) == next_cc(*old(cc)),
{
    let mut packet: Vec<u8> = Vec::with_capacity(TS_PACKET_SIZE);
    push_ts_header(&mut packet, pid, true, false, *cc);
    packet.push(0x00);
    let max_len: usize = TS_PACKET_SIZE - 5;
    let copy_len: usize = if section.len() < max_len { section.len() } else { max_len };
    append(&mut packet, vstd::slice::slice_subrange(section, 0, copy_len));
    append_filler(&mut packet, max_len - copy_len);
    proof {
        assert(section@.subrange(0, copy_len as int) =~= if section@.len() <= 183 {
            section@
        } else {
            section@.take(183)
        });
        assert(packet@ =~= psi_packet(section@, pid, *old(cc)));
    }
    *cc = bump_cc(*cc);
    packet
}

/// The two table packets of a video-only program: the association table,
/// then the map table.
pub open spec fn video_tables(cc_pat: u8, cc_pmt: u8) -> Seq<u8> {
    psi_packet(pat_section(PID_PMT), PID_PAT, cc_pat) + psi_packet(
        pmt_section(PID_VIDEO, PID_VIDEO),
        PID_PMT,
        cc_pmt,
    )
}

/// The two table packets of a program with video and audio.
pub open spec fn av_tables(cc_pat: u8, cc_pmt: u8) -> Seq<u8> {
    psi_packet(pat_section(PID_PMT), PID_PAT, cc_pat) + psi_packet(
        pmt_section_av(PID_VIDEO, PID_VIDEO, PID_AUDIO),
        PID_PMT,
        cc_pmt,
    )
}

} // verus!
