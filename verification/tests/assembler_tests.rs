use llstream_relay::assembler::VideoFrameAssembler;
use llstream_relay::feed::{
    after_send, announced_config, AnnexbFeed, AvAudioFeed, AvVideoFeed, SendOutcome, UnitReport,
    VideoTsFeed,
};
use llstream_relay::mux::av::{AvMpegTsMuxer, AvSample};
use llstream_relay::mux::video::MpegTsMuxer;
use llstream_relay::parser::nal::annexb_nals;
use std::ops::ControlFlow;

const KIND_SPS: u8 = 0x01;
const KIND_PPS: u8 = 0x02;
const KIND_IDR: u8 = 0x04;
const KIND_OTHER: u8 = 0x08;

fn video_message(kind: u8, timestamp_ns: u64, payload: &[u8]) -> Vec<u8> {
    let mut data = vec![0xE0u8; 21];
    data[0] = b'M';
    data[1] = b'R';
    data[2] = 0x01;
    data[4] = kind;
    data[9..17].copy_from_slice(&timestamp_ns.to_be_bytes());
    data.extend_from_slice(payload);
    data
}

fn audio_message(kind: u8, timestamp_ns: u64, payload: &[u8]) -> Vec<u8> {
    let mut data = vec![0u8; 17];
    data[0] = b'M';
    data[1] = b'R';
    data[2] = 0x02;
    data[4] = kind;
    data[9..17].copy_from_slice(&timestamp_ns.to_be_bytes());
    data.extend_from_slice(payload);
    data
}

fn types_of(annexb: &[u8]) -> Vec<u8> {
    annexb_nals(annexb).iter().map(|nal| nal[0] & 0x1F).collect()
}

const SPS: [u8; 4] = [0x67, 0x42, 0x00, 0x1F];
const PPS: [u8; 3] = [0x68, 0xCE, 0x3C];
const IDR: [u8; 4] = [0x65, 0x88, 0x84, 0x21];
const SLICE: [u8; 3] = [0x41, 0x9A, 0x02];

#[test]
fn sps_pps_idr_yield_one_access_unit() {
    let mut assembler = VideoFrameAssembler::new(false);
    assert!(assembler.process(&video_message(KIND_SPS, 1, &SPS)).is_none());
    assert!(assembler.has_sps());
    assert!(!assembler.has_pps());
    assert!(assembler.process(&video_message(KIND_PPS, 2, &PPS)).is_none());
    assert!(assembler.has_pps());
    assert!(!assembler.started());
    let frame = assembler.process(&video_message(KIND_IDR, 3, &IDR)).expect("access unit");
    assert!(assembler.started());
    assert_eq!(frame.timestamp_ns, 3);
    assert_eq!(frame.kind, KIND_IDR);
    assert_eq!(types_of(&frame.access_unit), vec![7, 8, 5]);
    let mut expected = vec![0, 0, 0, 1];
    expected.extend_from_slice(&SPS);
    expected.extend_from_slice(&[0, 0, 0, 1]);
    expected.extend_from_slice(&PPS);
    expected.extend_from_slice(&[0, 0, 0, 1]);
    expected.extend_from_slice(&IDR);
    assert_eq!(frame.access_unit, expected);
}

#[test]
fn nothing_is_emitted_before_a_decodable_keyframe() {
    let mut assembler = VideoFrameAssembler::new(false);
    assert!(assembler.process(&video_message(KIND_OTHER, 1, &SLICE)).is_none());
    assert_eq!(assembler.waiting_count(), 1);
    // a keyframe without parameter sets is held back
    assert!(assembler.process(&video_message(KIND_IDR, 2, &IDR)).is_none());
    assert_eq!(assembler.waiting_count(), 2);
    assert!(assembler.process(&video_message(KIND_SPS, 3, &SPS)).is_none());
    assert!(assembler.process(&video_message(KIND_IDR, 4, &IDR)).is_none());
    assert!(assembler.process(&video_message(KIND_PPS, 5, &PPS)).is_none());
    // parameter frames are not counted as held back
    assert_eq!(assembler.waiting_count(), 3);
    // both sets are known, but this is no keyframe
    assert!(assembler.process(&video_message(KIND_OTHER, 6, &SLICE)).is_none());
    assert!(!assembler.started());
    assert!(assembler.process(&video_message(KIND_IDR, 7, &IDR)).is_some());
    // once started, every frame passes
    let frame = assembler.process(&video_message(KIND_OTHER, 8, &SLICE)).expect("access unit");
    assert_eq!(frame.access_unit, vec![0, 0, 0, 1, 0x41, 0x9A, 0x02]);
    assert_eq!(assembler.waiting_count(), 4);
}

#[test]
fn every_120th_frame_held_back_is_reported() {
    let mut assembler = VideoFrameAssembler::new(false);
    let message = video_message(KIND_OTHER, 1, &SLICE);
    for n in 1..=240u64 {
        assert!(assembler.process(&message).is_none());
        assert_eq!(assembler.waiting_count(), n);
        assert_eq!(assembler.waiting_report_due(), n % 120 == 0);
    }
}

#[test]
fn a_keyframe_is_told_by_its_units_too() {
    let mut assembler = VideoFrameAssembler::new(false);
    let mut payload = vec![0, 0, 0, 1];
    payload.extend_from_slice(&SPS);
    payload.extend_from_slice(&[0, 0, 1]);
    payload.extend_from_slice(&PPS);
    payload.extend_from_slice(&[0, 0, 1]);
    payload.extend_from_slice(&IDR);
    // the kind does not say keyframe, the IDR slice does; the sets come with the frame
    let frame = assembler.process(&video_message(KIND_OTHER, 9, &payload)).expect("access unit");
    assert_eq!(frame.access_unit, payload);
    assert_eq!(types_of(&frame.access_unit), vec![7, 8, 5]);
}

#[test]
fn a_keyframe_gets_only_the_set_that_it_lacks() {
    let mut assembler = VideoFrameAssembler::new(true);
    assert!(assembler.process(&video_message(KIND_SPS, 1, &SPS)).is_none());
    assert!(assembler.process(&video_message(KIND_PPS, 2, &PPS)).is_none());
    let mut payload = vec![0, 0, 0, 1, 0x68, 0x01, 0, 0, 0, 1];
    payload.extend_from_slice(&IDR);
    let frame = assembler.process(&video_message(KIND_IDR, 3, &payload)).expect("access unit");
    assert_eq!(types_of(&frame.access_unit), vec![9, 7, 8, 5]);
    assert_eq!(&frame.access_unit[..6], &[0, 0, 0, 1, 0x09, 0xF0]);
    // the frame's own PPS replaced the older one
    let next = assembler.process(&video_message(KIND_IDR, 4, &IDR)).expect("access unit");
    let mut expected = vec![0, 0, 0, 1, 0x09, 0xF0, 0, 0, 0, 1];
    expected.extend_from_slice(&SPS);
    expected.extend_from_slice(&[0, 0, 0, 1, 0x68, 0x01, 0, 0, 0, 1]);
    expected.extend_from_slice(&IDR);
    assert_eq!(next.access_unit, expected);
    // frames between keyframes get the delimiter only
    let slice = assembler.process(&video_message(KIND_OTHER, 5, &SLICE)).expect("access unit");
    assert_eq!(types_of(&slice.access_unit), vec![9, 1]);
}

#[test]
fn a_parameter_frame_without_its_unit_stands_in_whole() {
    let mut assembler = VideoFrameAssembler::new(false);
    // announced as SPS, but holds a unit of type 1
    assert!(assembler.process(&video_message(KIND_SPS, 1, &SLICE)).is_none());
    assert!(assembler.has_sps());
    assert!(assembler.process(&video_message(KIND_PPS, 2, &PPS)).is_none());
    let frame = assembler.process(&video_message(KIND_IDR, 3, &IDR)).expect("access unit");
    assert_eq!(types_of(&frame.access_unit), vec![1, 8, 5]);
}

#[test]
fn unreadable_messages_change_nothing() {
    let mut assembler = VideoFrameAssembler::new(false);
    assert!(assembler.process(&[]).is_none());
    assert!(assembler.process(b"MR").is_none());
    assert!(assembler.process(&audio_message(0x02, 1, &[1, 2, 3])).is_none());
    assert!(assembler.process(&video_message(KIND_IDR, 1, &[0xE0, 0xE0])).is_none());
    assert_eq!(assembler.waiting_count(), 0);
    assert!(!assembler.has_sps());
    assert!(!assembler.has_pps());
    assert!(!assembler.started());
}

#[test]
fn a_new_connection_starts_afresh() {
    let mut feed = VideoTsFeed::new();
    assert!(feed.on_binary(&video_message(KIND_SPS, 1, &SPS)).is_none());
    assert!(feed.on_binary(&video_message(KIND_PPS, 2, &PPS)).is_none());
    let first = feed.on_binary(&video_message(KIND_IDR, 1_000_000_000, &IDR)).expect("chunk");
    assert!(feed.on_binary(&video_message(KIND_OTHER, 4, &SLICE)).is_some());
    feed.on_connected();
    // the parameter sets are forgotten with the connection
    assert!(feed.on_binary(&video_message(KIND_IDR, 5, &IDR)).is_none());
    assert!(feed.on_binary(&video_message(KIND_OTHER, 6, &SLICE)).is_none());
    assert!(feed.on_binary(&video_message(KIND_SPS, 7, &SPS)).is_none());
    assert!(feed.on_binary(&video_message(KIND_PPS, 8, &PPS)).is_none());
    let again = feed.on_binary(&video_message(KIND_IDR, 1_000_000_000, &IDR)).expect("chunk");
    // and so are the counters of the multiplexer
    assert_eq!(first, again);
}

#[test]
fn video_feed_muxes_what_the_assembler_emits() {
    let mut feed = VideoTsFeed::new();
    let mut assembler = VideoFrameAssembler::new(false);
    let mut muxer = MpegTsMuxer::new();
    let messages = vec![
        video_message(KIND_SPS, 1, &SPS),
        video_message(KIND_PPS, 2, &PPS),
        video_message(KIND_IDR, 2_000_000_000, &IDR),
        video_message(KIND_OTHER, 2_033_000_000, &SLICE),
    ];
    for message in messages.iter() {
        let expected = assembler
            .process(message)
            .map(|f| muxer.push_video_access_unit(&f.access_unit, f.timestamp_ns * 9 / 100_000));
        assert_eq!(feed.on_binary(message), expected);
    }
}

#[test]
fn byte_stream_feed_counts_and_reports_units() {
    let mut feed = AnnexbFeed::new();
    assert!(feed.on_binary(&video_message(KIND_SPS, 1, &SPS)).is_none());
    assert!(feed.on_binary(&video_message(KIND_PPS, 2, &PPS)).is_none());
    assert_eq!(feed.sent(), 0);
    let unit = feed.on_binary(&video_message(KIND_IDR, 3, &IDR)).expect("access unit");
    assert_eq!(types_of(&unit.access_unit), vec![9, 7, 8, 5]);
    assert_eq!(feed.sent(), 1);
    assert_eq!(feed.report(), UnitReport::Detail);
    for n in 2..=600u64 {
        assert!(feed.on_binary(&video_message(KIND_OTHER, n, &SLICE)).is_some());
        assert_eq!(feed.sent(), n);
        let expected = if n <= 8 {
            UnitReport::Detail
        } else if n % 300 == 0 {
            UnitReport::Count
        } else {
            UnitReport::Quiet
        };
        assert_eq!(feed.report(), expected);
    }
    feed.on_connected();
    assert_eq!(feed.sent(), 0);
}

#[test]
fn av_video_feed_yields_samples() {
    let mut feed = AvVideoFeed::new();
    assert!(feed.on_binary(&video_message(KIND_SPS, 1, &SPS)).is_none());
    assert!(feed.on_binary(&video_message(KIND_PPS, 2, &PPS)).is_none());
    match feed.on_binary(&video_message(KIND_IDR, 77, &IDR)) {
        Some(AvSample::Video { timestamp_ns, annexb }) => {
            assert_eq!(timestamp_ns, 77);
            assert_eq!(types_of(&annexb), vec![9, 7, 8, 5]);
        }
        _ => panic!("expected a video sample"),
    }
    feed.on_connected();
    assert!(feed.on_binary(&video_message(KIND_IDR, 78, &IDR)).is_none());
}

#[test]
fn the_av_multiplexer_outlives_a_reconnect() {
    let mut feed = AvVideoFeed::new();
    let mut muxer = AvMpegTsMuxer::new();
    let mut stamps = Vec::new();
    for round in 0..2u64 {
        feed.on_connected();
        // after the reconnect the source's clock starts over
        assert!(feed.on_binary(&video_message(KIND_SPS, 1, &SPS)).is_none());
        assert!(feed.on_binary(&video_message(KIND_PPS, 2, &PPS)).is_none());
        for n in 0..3u64 {
            let kind = if n == 0 { KIND_IDR } else { KIND_OTHER };
            let payload: &[u8] = if n == 0 { &IDR } else { &SLICE };
            let message = video_message(kind, 50_000_000_000 + n * 40_000_000, payload);
            let sample = feed.on_binary(&message).expect("sample");
            if let AvSample::Video { timestamp_ns, .. } = &sample {
                stamps.push(muxer.pts_90k(*timestamp_ns));
            }
            let chunk = muxer.push_sample(&sample);
            // the tables were written with the very first frame only
            assert_eq!(chunk[1] & 0x1F == 0 && chunk[2] == 0, round == 0 && n == 0);
        }
    }
    for i in 1..stamps.len() {
        assert!(stamps[i] > stamps[i - 1]);
    }
}

#[test]
fn audio_feed_frames_aac_with_the_configuration_in_force() {
    let mut feed = AvAudioFeed::new();
    match feed.on_binary(&audio_message(0x02, 5, &[0xAA; 100])) {
        Some(AvSample::Audio { timestamp_ns, adts_frame }) => {
            assert_eq!(timestamp_ns, 5);
            assert_eq!(&adts_frame[..7], &[0xFF, 0xF1, 0x50, 0x80, 0x0D, 0x7F, 0xFC]);
            assert_eq!(&adts_frame[7..], &[0xAA; 100][..]);
        }
        _ => panic!("expected an audio sample"),
    }
    assert_eq!(feed.sent(), 1);
    assert!(feed.report_due());
    // an AudioSpecificConfig replaces the configuration and yields nothing
    assert!(feed.on_binary(&audio_message(0x01, 6, &[0x11, 0x88])).is_none());
    assert_eq!(feed.config().sample_rate_index, 3);
    assert_eq!(feed.config().channel_config, 1);
    // an invalid one is passed over
    assert!(feed.on_binary(&audio_message(0x01, 7, &[0x17, 0x90])).is_none());
    assert_eq!(feed.config().sample_rate_index, 3);
    match feed.on_binary(&audio_message(0x02, 8, &[0xBB; 3])) {
        Some(AvSample::Audio { adts_frame, .. }) => {
            assert_eq!(&adts_frame[..7], &[0xFF, 0xF1, 0x4C, 0x40, 0x01, 0x5F, 0xFC]);
        }
        _ => panic!("expected an audio sample"),
    }
    // other kinds, empty payloads and video messages yield nothing
    assert!(feed.on_binary(&audio_message(0x03, 9, &[1])).is_none());
    assert!(feed.on_binary(&audio_message(0x02, 9, &[])).is_none());
    assert!(feed.on_binary(&video_message(KIND_IDR, 9, &IDR)).is_none());
    assert_eq!(feed.sent(), 2);
    for _ in 0..3 {
        assert!(feed.on_binary(&audio_message(0x02, 10, &[1])).is_some());
    }
    assert_eq!(feed.sent(), 5);
    assert!(!feed.report_due());
    // a new connection falls back to the standard configuration
    feed.on_connected();
    assert_eq!(feed.sent(), 0);
    assert_eq!(feed.config().sample_rate_index, 4);
    assert_eq!(feed.config().channel_config, 2);
}

#[test]
fn feeds_tell_when_frames_are_held_back_and_when_the_stream_starts() {
    let mut ts = VideoTsFeed::new();
    let mut units = AnnexbFeed::new();
    let mut samples = AvVideoFeed::new();
    let held = video_message(KIND_OTHER, 1, &SLICE);
    for n in 1..=240u64 {
        assert!(ts.on_binary(&held).is_none());
        assert!(units.on_binary(&held).is_none());
        assert!(samples.on_binary(&held).is_none());
        assert_eq!(ts.waiting_count(), n);
        assert_eq!(units.waiting_count(), n);
        assert_eq!(samples.waiting_count(), n);
        assert_eq!(ts.waiting_report_due(), n % 120 == 0);
        assert_eq!(units.waiting_report_due(), n % 120 == 0);
        assert_eq!(samples.waiting_report_due(), n % 120 == 0);
        assert!(!ts.started() && !units.started() && !samples.started());
    }
    for message in [video_message(KIND_SPS, 2, &SPS), video_message(KIND_PPS, 3, &PPS)] {
        assert!(ts.on_binary(&message).is_none());
        assert!(units.on_binary(&message).is_none());
        assert!(samples.on_binary(&message).is_none());
    }
    assert_eq!(ts.waiting_count(), 240);
    let key = video_message(KIND_IDR, 4, &IDR);
    assert!(ts.on_binary(&key).is_some());
    assert!(units.on_binary(&key).is_some());
    assert!(samples.on_binary(&key).is_some());
    assert!(ts.started() && units.started() && samples.started());
    assert_eq!(units.waiting_count(), 240);
    ts.on_connected();
    units.on_connected();
    samples.on_connected();
    assert!(!ts.started() && !units.started() && !samples.started());
    assert_eq!(samples.waiting_count(), 0);
}

#[test]
fn video_feed_corrects_a_clock_that_goes_back_within_a_connection() {
    let mut feed = VideoTsFeed::new();
    assert!(feed.on_binary(&video_message(KIND_SPS, 1, &SPS)).is_none());
    assert!(feed.on_binary(&video_message(KIND_PPS, 2, &PPS)).is_none());
    let stamps = [10_000_000_000u64, 10_040_000_000, 1_000_000, 41_000_000];
    let mut written = Vec::new();
    for (n, &ts) in stamps.iter().enumerate() {
        let kind = if n == 0 { KIND_IDR } else { KIND_OTHER };
        let payload: &[u8] = if n == 0 { &IDR } else { &SLICE };
        let chunk = feed.on_binary(&video_message(kind, ts, payload)).expect("chunk");
        let packet = chunk
            .chunks(188)
            .find(|p| p[1] & 0x1F == 0x01 && p[2] == 0x01)
            .expect("a video packet");
        let pes = &packet[5 + packet[4] as usize..];
        let f = &pes[9..14];
        written.push(
            (((f[0] >> 1) & 0x07) as u64) << 30
                | (f[1] as u64) << 22
                | ((f[2] >> 1) as u64) << 15
                | (f[3] as u64) << 7
                | (f[4] >> 1) as u64,
        );
    }
    assert_eq!(written, vec![900_000, 903_600, 904_500, 908_100]);
}

#[test]
fn only_a_valid_configuration_frame_announces_a_configuration() {
    let config = announced_config(&audio_message(0x01, 1, &[0x12, 0x10])).expect("configuration");
    assert_eq!(config.audio_object_type, 2);
    assert_eq!(config.sample_rate_index, 4);
    assert_eq!(config.channel_config, 2);
    assert!(announced_config(&audio_message(0x01, 1, &[0x17, 0x90])).is_none());
    assert!(announced_config(&audio_message(0x01, 1, &[])).is_none());
    assert!(announced_config(&audio_message(0x02, 1, &[0x12, 0x10])).is_none());
    assert!(announced_config(&video_message(KIND_SPS, 1, &[0x12, 0x10])).is_none());
    assert!(announced_config(&[]).is_none());
}

#[test]
fn a_full_queue_costs_the_sample_and_a_closed_one_ends_the_connection() {
    assert_eq!(after_send(SendOutcome::Sent), ControlFlow::Continue(()));
    assert_eq!(after_send(SendOutcome::Full), ControlFlow::Continue(()));
    assert_eq!(after_send(SendOutcome::Closed), ControlFlow::Break(()));
}
