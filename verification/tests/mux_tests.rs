use llstream_relay::mux::av::{build_bootstrap_tables_av, AvMpegTsMuxer, AvSample};
use llstream_relay::mux::crc::mpeg_crc32;
use llstream_relay::mux::packet::{packetize_pes, PID_AUDIO, PID_PAT, PID_PMT, PID_VIDEO};
use llstream_relay::mux::pes::{build_aac_pes, build_h264_pes, encode_pts, ns_to_90k, write_pcr};
use llstream_relay::mux::tables::{
    build_pat_section, build_pmt_section, build_pmt_section_av, packetize_psi, set_section_length,
};
use llstream_relay::mux::video::{build_bootstrap_tables, MpegTsMuxer};

/// A table-driven CRC-32/MPEG-2 to hold the library's against.
fn reference_crc32(data: &[u8]) -> u32 {
    let mut table = [0u32; 256];
    for i in 0..256u32 {
        let mut c = i << 24;
        for _ in 0..8 {
            c = if c & 0x8000_0000 != 0 { (c << 1) ^ 0x04C1_1DB7 } else { c << 1 };
        }
        table[i as usize] = c;
    }
    let mut crc = 0xFFFF_FFFFu32;
    for &b in data {
        crc = (crc << 8) ^ table[(((crc >> 24) as u8) ^ b) as usize];
    }
    crc
}

fn pid_of(packet: &[u8]) -> u16 {
    (((packet[1] & 0x1F) as u16) << 8) | packet[2] as u16
}

fn cc_of(packet: &[u8]) -> u8 {
    packet[3] & 0x0F
}

/// The payload of a transport packet, behind its adaptation field if any.
fn payload_of(packet: &[u8]) -> &[u8] {
    match packet[3] & 0x30 {
        0x10 => &packet[4..],
        0x30 => &packet[5 + packet[4] as usize..],
        _ => &[],
    }
}

/// The PTS of the PES packet that begins in `packet`.
fn pts_of(packet: &[u8]) -> u64 {
    let pes = payload_of(packet);
    assert_eq!(&pes[..3], &[0, 0, 1]);
    let f = &pes[9..14];
    (((f[0] >> 1) & 0x07) as u64) << 30
        | (f[1] as u64) << 22
        | ((f[2] >> 1) as u64) << 15
        | (f[3] as u64) << 7
        | (f[4] >> 1) as u64
}

fn check_stream(out: &[u8]) {
    assert_eq!(out.len() % 188, 0);
    for packet in out.chunks(188) {
        assert_eq!(packet[0], 0x47);
    }
}

/// Checks that on every PID the counters go up by one, and returns the
/// counter that each PID had last.
fn check_continuity(out: &[u8], last: &mut [Option<u8>; 4]) {
    for packet in out.chunks(188) {
        let slot = match pid_of(packet) {
            0x0000 => 0,
            0x0100 => 1,
            0x0101 => 2,
            0x0102 => 3,
            other => panic!("unexpected pid {}", other),
        };
        if let Some(before) = last[slot] {
            assert_eq!(cc_of(packet), (before + 1) % 16);
        } else {
            assert_eq!(cc_of(packet), 0);
        }
        last[slot] = Some(cc_of(packet));
    }
}

#[test]
fn clock_conversion() {
    assert_eq!(ns_to_90k(0), 0);
    assert_eq!(ns_to_90k(1_000_000_000), 90_000);
    assert_eq!(ns_to_90k(11_111), 0);
    assert_eq!(ns_to_90k(11_112), 1);
    assert_eq!(ns_to_90k(u64::MAX / 90_000), 18_446_744_073);
    assert_eq!(ns_to_90k(u64::MAX / 90_000 + 1), 18_446_744_073);
    assert_eq!(ns_to_90k(u64::MAX), 18_446_744_073);
}

#[test]
fn crc_matches_the_reference() {
    assert_eq!(mpeg_crc32(b"123456789"), 0x0376_E6E7);
    assert_eq!(mpeg_crc32(&[]), 0xFFFF_FFFF);
    let section = build_pat_section(PID_PMT);
    let covered = &section[..section.len() - 4];
    assert_eq!(mpeg_crc32(covered), reference_crc32(covered));
    assert_eq!(mpeg_crc32(covered), 0xE8F9_5E7D);
    assert_eq!(&section[section.len() - 4..], &[0xE8, 0xF9, 0x5E, 0x7D]);
    // a section with its CRC appended sums to zero
    assert_eq!(mpeg_crc32(&section), 0);
    let data: Vec<u8> = (0..=255u8).collect();
    assert_eq!(mpeg_crc32(&data), reference_crc32(&data));
}

#[test]
fn pat_section_bytes() {
    assert_eq!(
        build_pat_section(0x0100),
        vec![
            0x00, 0xB0, 0x0D, 0x00, 0x01, 0xC1, 0x00, 0x00, 0x00, 0x01, 0xE1, 0x00, 0xE8, 0xF9,
            0x5E, 0x7D
        ]
    );
    let other = build_pat_section(0x1FFF);
    assert_eq!(&other[10..12], &[0xFF, 0xFF]);
    let wide = build_pat_section(0xFFFF);
    assert_eq!(&wide[10..12], &[0xFF, 0xFF]);
}

#[test]
fn pmt_section_bytes() {
    assert_eq!(
        build_pmt_section(0x0101, 0x0101),
        vec![
            0x02, 0xB0, 0x12, 0x00, 0x01, 0xC1, 0x00, 0x00, 0xE1, 0x01, 0xF0, 0x00, 0x1B, 0xE1,
            0x01, 0xF0, 0x00, 0x4F, 0xC4, 0x3D, 0x1B
        ]
    );
    assert_eq!(
        build_pmt_section_av(0x0101, 0x0101, 0x0102),
        vec![
            0x02, 0xB0, 0x17, 0x00, 0x01, 0xC1, 0x00, 0x00, 0xE1, 0x01, 0xF0, 0x00, 0x1B, 0xE1,
            0x01, 0xF0, 0x00, 0x0F, 0xE1, 0x02, 0xF0, 0x00, 0x9E, 0x28, 0xC6, 0xDD
        ]
    );
}

#[test]
fn section_length_is_written_into_the_header() {
    let mut section = vec![0x02u8, 0xBF, 0xFF, 0, 0, 0, 0];
    set_section_length(&mut section);
    assert_eq!(section, vec![0x02, 0xB0, 0x04, 0, 0, 0, 0]);
    let mut long = vec![0xA5u8; 3 + 0x123];
    set_section_length(&mut long);
    assert_eq!(&long[..3], &[0xA5, 0xA1, 0x23]);
}

#[test]
fn psi_packet_layout() {
    let section = build_pat_section(PID_PMT);
    let mut cc = 15u8;
    let packet = packetize_psi(&section, PID_PAT, &mut cc);
    assert_eq!(packet.len(), 188);
    assert_eq!(&packet[..5], &[0x47, 0x40, 0x00, 0x1F, 0x00]);
    assert_eq!(&packet[5..21], &section[..]);
    assert!(packet[21..].iter().all(|&b| b == 0xFF));
    assert_eq!(cc, 0);
    let mut cc = 3u8;
    let packet = packetize_psi(&[0xAB; 300], PID_PMT, &mut cc);
    assert_eq!(packet.len(), 188);
    assert_eq!(&packet[..5], &[0x47, 0x41, 0x00, 0x13, 0x00]);
    assert!(packet[5..].iter().all(|&b| b == 0xAB));
    assert_eq!(cc, 4);
}

#[test]
fn pts_and_pcr_fields() {
    assert_eq!(encode_pts(900), [0x21, 0x00, 0x01, 0x07, 0x09]);
    assert_eq!(encode_pts(90_000), [0x21, 0x00, 0x05, 0xBF, 0x21]);
    assert_eq!(encode_pts(0x1_FFFF_FFFF), [0x2F, 0xFF, 0xFF, 0xFF, 0xFF]);
    assert_eq!(encode_pts(0x2_0000_0000), [0x21, 0x00, 0x01, 0x00, 0x01]);
    let mut out = [0xEEu8; 8];
    write_pcr(&mut out, 90_000);
    assert_eq!(out, [0x00, 0x00, 0xAF, 0xC8, 0x7E, 0x00, 0xEE, 0xEE]);
    let mut out = [0u8; 6];
    write_pcr(&mut out, 0x1_FFFF_FFFF);
    assert_eq!(out, [0xFF, 0xFF, 0xFF, 0xFF, 0xFE, 0x00]);
}

#[test]
fn pes_packets_begin_with_the_fixed_header() {
    let pes = build_h264_pes(&[1, 2, 3], 900);
    assert_eq!(
        pes,
        vec![0, 0, 1, 0xE0, 0, 0, 0x80, 0x80, 5, 0x21, 0x00, 0x01, 0x07, 0x09, 1, 2, 3]
    );
    let pes = build_aac_pes(&[9], 900);
    assert_eq!(pes, vec![0, 0, 1, 0xC0, 0, 0, 0x80, 0x80, 5, 0x21, 0x00, 0x01, 0x07, 0x09, 9]);
}

#[test]
fn pes_of_every_size_fills_whole_packets() {
    for len in 0..600usize {
        let pes: Vec<u8> = (0..len).map(|i| (i % 251) as u8).collect();
        for with_pcr in [false, true] {
            let mut cc = 14u8;
            let pcr = if with_pcr { Some(12345u64) } else { None };
            let out = packetize_pes(&pes, PID_VIDEO, &mut cc, pcr);
            check_stream(&out);
            let mut carried = Vec::new();
            for (k, packet) in out.chunks(188).enumerate() {
                assert_eq!(pid_of(packet), PID_VIDEO);
                assert_eq!(cc_of(packet), ((14 + k) % 16) as u8);
                assert_eq!(packet[1] & 0x40 != 0, k == 0);
                if k == 0 && with_pcr {
                    assert_eq!(packet[3] & 0x30, 0x30);
                    assert_eq!(packet[5], 0x10);
                    assert_eq!(&packet[6..12], &[0x00, 0x00, 0x18, 0x1C, 0xFE, 0x00]);
                }
                carried.extend_from_slice(payload_of(packet));
            }
            assert_eq!(carried, pes);
            assert_eq!(cc, ((14 + out.len() / 188) % 16) as u8);
            if len == 0 {
                assert!(out.is_empty());
                assert_eq!(cc, 14);
            }
        }
    }
}

#[test]
fn full_and_short_packets() {
    let mut cc = 0u8;
    let out = packetize_pes(&[7u8; 184], PID_AUDIO, &mut cc, None);
    assert_eq!(out.len(), 188);
    assert_eq!(&out[..4], &[0x47, 0x41, 0x02, 0x10]);
    let out = packetize_pes(&[7u8; 183], PID_AUDIO, &mut cc, None);
    assert_eq!(out.len(), 188);
    assert_eq!(&out[..5], &[0x47, 0x41, 0x02, 0x31, 0x00]);
    let out = packetize_pes(&[7u8; 1], PID_AUDIO, &mut cc, None);
    assert_eq!(&out[..6], &[0x47, 0x41, 0x02, 0x32, 182, 0x00]);
    assert!(out[6..187].iter().all(|&b| b == 0xFF));
    assert_eq!(out[187], 7);
    let out = packetize_pes(&[7u8; 176], PID_VIDEO, &mut cc, Some(0));
    assert_eq!(out.len(), 188);
    assert_eq!(&out[..6], &[0x47, 0x41, 0x01, 0x33, 7, 0x10]);
    let out = packetize_pes(&[7u8; 177], PID_VIDEO, &mut cc, Some(0));
    assert_eq!(out.len(), 376);
}

#[test]
fn video_muxer_refreshes_tables_every_thirty_frames() {
    let mut muxer = MpegTsMuxer::new();
    let mut last = [None; 4];
    for frame in 0..95u64 {
        let out = muxer.push_video_access_unit(&[0, 0, 0, 1, 0x65, 0x88], frame * 3000);
        check_stream(&out);
        check_continuity(&out, &mut last);
        let first = pid_of(&out[..188]);
        if frame % 30 == 0 {
            assert_eq!(first, PID_PAT);
            assert_eq!(pid_of(&out[188..376]), PID_PMT);
            assert_eq!(pid_of(&out[376..564]), PID_VIDEO);
            assert_eq!(pts_of(&out[376..564]), frame * 3000);
        } else {
            assert_eq!(first, PID_VIDEO);
            assert_eq!(pts_of(&out[..188]), frame * 3000);
        }
    }
}

#[test]
fn video_muxer_never_writes_an_earlier_pts() {
    let mut muxer = MpegTsMuxer::new();
    let given = [
        9_000_000u64,
        9_003_000,
        9_006_000,
        // the source's clock starts over
        0,
        3000,
        6000,
        // the same timestamp twice
        6000,
        // a little back, within the tolerance
        5500,
        // far ahead, then far back
        1_000_000_000,
        10,
    ];
    let mut written = Vec::new();
    for &pts in given.iter() {
        let out = muxer.push_video_access_unit(&[0, 0, 0, 1, 0x65, 0x88], pts);
        check_stream(&out);
        let packet = out.chunks(188).find(|p| pid_of(p) == PID_VIDEO).expect("a video packet");
        written.push(pts_of(packet));
        // the clock reference of the first packet is the timestamp written
        assert_eq!(packet[3] & 0x30, 0x30);
        assert_eq!(packet[5], 0x10);
        let base = (packet[6] as u64) << 25
            | (packet[7] as u64) << 17
            | (packet[8] as u64) << 9
            | (packet[9] as u64) << 1
            | (packet[10] >> 7) as u64;
        assert_eq!(base, *written.last().unwrap());
    }
    for i in 1..written.len() {
        assert!(written[i] > written[i - 1], "pts[{}] = {}", i, written[i]);
    }
    assert_eq!(
        written,
        vec![
            9_000_000,
            9_003_000,
            9_006_000,
            // lands 900 ticks after the last, and the new timebase stays
            9_006_900,
            9_009_900,
            9_012_900,
            9_012_901,
            9_012_902,
            1_009_006_900,
            1_009_007_800,
        ]
    );
}

#[test]
fn a_new_video_muxer_begins_a_new_timebase() {
    let mut first = MpegTsMuxer::new();
    first.push_video_access_unit(&[0, 0, 0, 1, 0x65], 500_000);
    // after a reconnect the timestamps are taken as they come again
    let mut second = MpegTsMuxer::new();
    let out = second.push_video_access_unit(&[0, 0, 0, 1, 0x65], 100);
    assert_eq!(pts_of(&out[376..564]), 100);
}

#[test]
fn bootstrap_tables_are_two_packets() {
    let video = build_bootstrap_tables();
    check_stream(&video);
    assert_eq!(video.len(), 376);
    assert_eq!(pid_of(&video[..188]), PID_PAT);
    assert_eq!(pid_of(&video[188..]), PID_PMT);
    assert_eq!(&video[5..21], &build_pat_section(PID_PMT)[..]);
    assert_eq!(&video[193..214], &build_pmt_section(PID_VIDEO, PID_VIDEO)[..]);
    let av = build_bootstrap_tables_av();
    check_stream(&av);
    assert_eq!(av.len(), 376);
    assert_eq!(&av[193..219], &build_pmt_section_av(PID_VIDEO, PID_VIDEO, PID_AUDIO)[..]);
    let mut muxer = AvMpegTsMuxer::new();
    let first = muxer.push_video_access_unit(&[0, 0, 0, 1, 0x65], 0);
    assert_eq!(&first[..376], &av[..]);
}

#[test]
fn av_muxer_output_is_whole_packets_with_continuous_counters() {
    let mut muxer = AvMpegTsMuxer::new();
    let mut last = [None; 4];
    let mut ts = 1_000_000_000u64;
    for i in 0..400usize {
        let out = if i % 3 == 0 {
            muxer.push_video_access_unit(&vec![0x41u8; (i * 37) % 1000 + 5], ts)
        } else {
            muxer.push_audio_adts_frame(&vec![0xFFu8; (i * 11) % 400 + 7], ts)
        };
        assert!(!out.is_empty());
        check_stream(&out);
        check_continuity(&out, &mut last);
        ts += 21_333_333;
    }
}

#[test]
fn av_muxer_refreshes_tables_from_either_stream() {
    let mut muxer = AvMpegTsMuxer::new();
    for i in 0..241u64 {
        let out = muxer.push_audio_adts_frame(&[0xFF, 0xF1, 0, 0, 0, 0, 0], i);
        assert_eq!(pid_of(&out[..188]) == PID_PAT, i % 120 == 0);
    }
    for i in 0..61u64 {
        let out = muxer.push_video_access_unit(&[0, 0, 1, 0x41], i);
        assert_eq!(pid_of(&out[..188]) == PID_PAT, i % 30 == 0);
    }
}

#[test]
fn pts_never_goes_back() {
    let mut muxer = AvMpegTsMuxer::new();
    let second = 1_000_000_000u64;
    let stamps = [
        100 * second,
        100 * second + 33_000_000,
        100 * second + 66_000_000,
        // the source's clock starts over
        0,
        33_000_000,
        66_000_000,
        // and jumps far ahead, then back by a little
        500 * second,
        500 * second - 5_000_000,
        500 * second - 5_000_000,
        // before the origin
        1,
    ];
    let mut pts = Vec::new();
    for &ts in stamps.iter() {
        pts.push(muxer.pts_90k(ts));
    }
    for i in 1..pts.len() {
        assert!(pts[i] > pts[i - 1], "pts[{}] = {} after {}", i, pts[i], pts[i - 1]);
    }
    assert_eq!(pts[0], 0);
    assert_eq!(pts[1], 2970);
    assert_eq!(pts[2], 5940);
    // a jump back lands 900 ticks after the last timestamp
    assert_eq!(pts[3], 5940 + 900);
    // and the shifted timebase stays in force
    assert_eq!(pts[4], 5940 + 900 + 1);
    assert_eq!(pts[5], 5940 + 900 + 2);
    assert_eq!(pts[6], 36_000_000 + 6840);
    // within the tolerance of 900 ticks the timestamp only moves on by one
    assert_eq!(pts[7], pts[6] + 1);
    assert_eq!(pts[8], pts[6] + 2);
    assert_eq!(pts[9], pts[8] + 900);
}

#[test]
fn emitted_pts_follows_the_corrected_clock() {
    let mut muxer = AvMpegTsMuxer::new();
    let stamps = [5_000_000_000u64, 5_040_000_000, 1_000_000, 41_000_000];
    let mut seen = Vec::new();
    for (i, &ts) in stamps.iter().enumerate() {
        let out = if i % 2 == 0 {
            muxer.push_video_access_unit(&[0, 0, 0, 1, 0x65], ts)
        } else {
            muxer.push_audio_adts_frame(&[0xFF, 0xF1, 0x50, 0x80, 0x01, 0x1F, 0xFC, 0], ts)
        };
        let packet = out
            .chunks(188)
            .find(|p| pid_of(p) == PID_VIDEO || pid_of(p) == PID_AUDIO)
            .expect("a packet of the stream");
        seen.push(pts_of(packet));
    }
    assert_eq!(seen, vec![0, 3600, 4500, 4501]);
}

#[test]
fn samples_go_to_their_stream() {
    let mut by_sample = AvMpegTsMuxer::new();
    let mut direct = AvMpegTsMuxer::new();
    let video = AvSample::Video { timestamp_ns: 10, annexb: vec![0, 0, 0, 1, 0x65] };
    let audio = AvSample::Audio { timestamp_ns: 20, adts_frame: vec![0xFF, 0xF1, 0, 0, 0, 0, 0] };
    assert_eq!(
        by_sample.push_sample(&video),
        direct.push_video_access_unit(&[0, 0, 0, 1, 0x65], 10)
    );
    assert_eq!(
        by_sample.push_sample(&audio),
        direct.push_audio_adts_frame(&[0xFF, 0xF1, 0, 0, 0, 0, 0], 20)
    );
}
