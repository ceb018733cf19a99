use llstream_relay::parser::aac::AacConfig;
use llstream_relay::parser::annexb::{
    convert_length_prefixed, ensure_annexb, is_annexb, is_valid_h264_nal_type,
    looks_like_length_prefixed, nal_type_of,
};
use llstream_relay::parser::frame::{
    detect_video_payload_offset, looks_like_h264_payload, parse_audio_packet, parse_video_packet,
};
use llstream_relay::parser::nal::{
    annexb_nals, extract_parameter_sets, find_start_code, has_nal_type,
};
use llstream_relay::parser::preview::{hex_prefix, nal_types_preview};

fn video_message(header_len: usize, kind: u8, timestamp_ns: u64, payload: &[u8]) -> Vec<u8> {
    let mut data = vec![0xAAu8; header_len];
    data[0] = b'M';
    data[1] = b'R';
    data[2] = 0x01;
    data[4] = kind;
    data[9..17].copy_from_slice(&timestamp_ns.to_be_bytes());
    data.extend_from_slice(payload);
    data
}

fn audio_message(kind: u8, timestamp_ns: u64, payload: &[u8]) -> Vec<u8> {
    let mut data = vec![0u8; 17];
    data[0] = b'M';
    data[1] = b'R';
    data[2] = 0x02;
    data[4] = kind;
    data[9..17].copy_from_slice(&timestamp_ns.to_be_bytes());
    data.extend_from_slice(payload);
    data
}

#[test]
fn asc_bytes_yield_the_announced_configuration() {
    let config = AacConfig::from_asc(&[0x12, 0x10]).expect("valid configuration");
    assert_eq!(config.audio_object_type, 2);
    assert_eq!(config.sample_rate_index, 4);
    assert_eq!(config.channel_config, 2);
    let header = config.adts_header(100);
    assert_eq!(header[0], 0xFF);
    assert_eq!(header[1], 0xF1);
    assert_eq!(header, [0xFF, 0xF1, 0x50, 0x80, 0x0D, 0x7F, 0xFC]);
}

#[test]
fn asc_with_reserved_fields_is_rejected() {
    // sample rate index 15
    assert!(AacConfig::from_asc(&[0x17, 0x90]).is_none());
    // channel configuration 0
    assert!(AacConfig::from_asc(&[0x12, 0x00]).is_none());
    // too short
    assert!(AacConfig::from_asc(&[0x12]).is_none());
    assert!(AacConfig::from_asc(&[]).is_none());
}

#[test]
fn asc_ignores_bytes_after_the_second() {
    let config = AacConfig::from_asc(&[0x11, 0x88, 0xFF, 0xFF]).expect("valid configuration");
    assert_eq!(config.audio_object_type, 2);
    assert_eq!(config.sample_rate_index, 3);
    assert_eq!(config.channel_config, 1);
}

#[test]
fn default_configuration_is_aac_lc_stereo() {
    let config = AacConfig::default();
    assert_eq!(config.audio_object_type, 2);
    assert_eq!(config.sample_rate_index, 4);
    assert_eq!(config.channel_config, 2);
}

#[test]
fn adts_header_carries_the_frame_length() {
    let config = AacConfig { audio_object_type: 2, sample_rate_index: 3, channel_config: 1 };
    assert_eq!(config.adts_header(8000), [0xFF, 0xF1, 0x4C, 0x43, 0xE8, 0xFF, 0xFC]);
    let zero = AacConfig { audio_object_type: 0, sample_rate_index: 4, channel_config: 2 };
    assert_eq!(zero.adts_header(0)[2], 0x10);
}

#[test]
fn nal_types_are_the_low_five_bits() {
    assert_eq!(nal_type_of(0x67), 7);
    assert_eq!(nal_type_of(0x68), 8);
    assert_eq!(nal_type_of(0x65), 5);
    assert_eq!(nal_type_of(0xFF), 31);
    assert!(!is_valid_h264_nal_type(0));
    assert!(is_valid_h264_nal_type(1));
    assert!(is_valid_h264_nal_type(23));
    assert!(!is_valid_h264_nal_type(24));
}

#[test]
fn start_codes_of_both_lengths_are_recognized() {
    assert!(is_annexb(&[0, 0, 1, 0x65]));
    assert!(is_annexb(&[0, 0, 0, 1, 0x65]));
    assert!(is_annexb(&[0, 0, 1]));
    assert!(!is_annexb(&[0, 0]));
    assert!(!is_annexb(&[0, 0, 2, 1]));
    assert!(!is_annexb(&[0, 0, 0, 0, 1]));
    assert!(!is_annexb(&[]));
}

#[test]
fn ensure_annexb_keeps_an_annexb_payload() {
    let payload = [0u8, 0, 1, 0x65, 0x88];
    assert_eq!(ensure_annexb(&payload), payload.to_vec());
}

#[test]
fn ensure_annexb_converts_four_byte_prefixes() {
    let payload = [0u8, 0, 0, 2, 0x67, 0x42, 0, 0, 0, 3, 0x65, 0x88, 0x80];
    assert_eq!(
        ensure_annexb(&payload),
        vec![0, 0, 0, 1, 0x67, 0x42, 0, 0, 0, 1, 0x65, 0x88, 0x80]
    );
}

#[test]
fn ensure_annexb_converts_three_and_two_byte_prefixes() {
    let three = [0u8, 0, 2, 0x41, 0x9A];
    assert_eq!(convert_length_prefixed(&three, 4), None);
    assert_eq!(convert_length_prefixed(&three, 2), None);
    assert_eq!(ensure_annexb(&three), vec![0, 0, 0, 1, 0x41, 0x9A]);
    // no records of any width, but a valid type in front: one raw unit
    let raw = [0x10u8, 0, 2, 0x41, 0x9A];
    assert_eq!(ensure_annexb(&raw), vec![0, 0, 0, 1, 0x10, 0, 2, 0x41, 0x9A]);
    let three = [0u8, 0, 2, 0x41, 0x9A, 0, 0, 1, 0x65];
    assert_eq!(ensure_annexb(&three), vec![0, 0, 0, 1, 0x41, 0x9A, 0, 0, 0, 1, 0x65]);
    let two = [0u8, 2, 0x41, 0x9A, 0, 1, 0x65];
    assert_eq!(ensure_annexb(&two), vec![0, 0, 0, 1, 0x41, 0x9A, 0, 0, 0, 1, 0x65]);
}

#[test]
fn ensure_annexb_wraps_a_single_raw_unit() {
    let payload = [0x65u8, 0x88, 0x80];
    assert_eq!(ensure_annexb(&payload), vec![0, 0, 0, 1, 0x65, 0x88, 0x80]);
}

#[test]
fn ensure_annexb_rejects_what_it_cannot_read() {
    assert!(ensure_annexb(&[]).is_empty());
    // type 0 and no consistent records
    assert!(ensure_annexb(&[0x00, 0xFF, 0xFF, 0xFF, 0xFF]).is_empty());
    // type 24
    assert!(ensure_annexb(&[0x78]).is_empty());
}

#[test]
fn ensure_annexb_output_begins_with_a_start_code() {
    let inputs: Vec<Vec<u8>> = vec![
        vec![0, 0, 1, 0x65],
        vec![0, 0, 0, 1, 0x41],
        vec![0, 0, 0, 1, 0x65],
        vec![0, 1, 0x65],
        vec![0x41, 1, 2, 3],
        vec![0x80],
    ];
    for input in inputs {
        let out = ensure_annexb(&input);
        assert!(out.is_empty() || is_annexb(&out));
    }
}

#[test]
fn length_prefixed_records_must_account_for_every_byte() {
    assert!(looks_like_length_prefixed(&[0, 0, 0, 1, 0x65], 4));
    assert!(!looks_like_length_prefixed(&[0, 0, 0, 1, 0x65, 0], 4));
    assert!(!looks_like_length_prefixed(&[0, 0, 0, 2, 0x65], 4));
    assert!(!looks_like_length_prefixed(&[0, 0, 0, 0, 0x65], 4));
    assert!(!looks_like_length_prefixed(&[0, 0, 0, 1, 0x60], 4));
    assert!(looks_like_length_prefixed(&[0, 0, 1, 0x65], 3));
    assert!(looks_like_length_prefixed(&[0, 1, 0x65], 2));
    assert!(!looks_like_length_prefixed(&[1, 0x65], 1));
    assert!(!looks_like_length_prefixed(&[0, 0, 0, 0, 1, 0x65], 5));
    assert!(!looks_like_length_prefixed(&[], 4));
    assert!(!looks_like_length_prefixed(&[0, 0, 0, 1], 4));
}

#[test]
fn one_byte_prefixes_convert_but_do_not_count_as_plausible() {
    assert_eq!(convert_length_prefixed(&[1, 0x65, 2, 0x41, 0x9A], 1), Some(vec![
        0, 0, 0, 1, 0x65, 0, 0, 0, 1, 0x41, 0x9A
    ]));
    assert_eq!(convert_length_prefixed(&[1, 0x65], 0), None);
    assert_eq!(convert_length_prefixed(&[1, 0x65], 5), None);
}

#[test]
fn start_codes_are_found_from_an_offset() {
    let data = [9u8, 0, 0, 0, 1, 0x67, 0, 0, 1, 0x68];
    assert_eq!(find_start_code(&data, 0), Some((1, 4)));
    assert_eq!(find_start_code(&data, 1), Some((1, 4)));
    assert_eq!(find_start_code(&data, 2), Some((2, 3)));
    assert_eq!(find_start_code(&data, 3), Some((6, 3)));
    assert_eq!(find_start_code(&data, 7), None);
    assert_eq!(find_start_code(&data, 10), None);
    assert_eq!(find_start_code(&data, 11), None);
    assert_eq!(find_start_code(&data, usize::MAX), None);
    assert_eq!(find_start_code(&[], 0), None);
}

#[test]
fn annexb_streams_split_into_their_units() {
    let data = [0u8, 0, 0, 1, 0x67, 0x42, 0, 0, 1, 0x68, 0xCE, 0, 0, 0, 1, 0x65, 0x88];
    let nals = annexb_nals(&data);
    assert_eq!(nals.len(), 3);
    assert_eq!(nals[0], &[0x67, 0x42][..]);
    assert_eq!(nals[1], &[0x68, 0xCE][..]);
    assert_eq!(nals[2], &[0x65, 0x88][..]);
    assert!(annexb_nals(&[1, 2, 3]).is_empty());
    assert!(annexb_nals(&[0, 0, 1]).is_empty());
    // bytes before the first start code belong to no unit
    assert_eq!(annexb_nals(&[7, 7, 0, 0, 1, 0x41]), vec![&[0x41u8][..]]);
    // two start codes in a row hold no unit between them
    assert_eq!(annexb_nals(&[0, 0, 1, 0, 0, 1, 0x41]), vec![&[0x41u8][..]]);
}

#[test]
fn nal_types_are_looked_up_in_a_stream() {
    let data = [0u8, 0, 0, 1, 0x67, 0x42, 0, 0, 1, 0x68, 0xCE, 0, 0, 0, 1, 0x65, 0x88];
    assert!(has_nal_type(&data, 7));
    assert!(has_nal_type(&data, 8));
    assert!(has_nal_type(&data, 5));
    assert!(!has_nal_type(&data, 1));
    assert!(!has_nal_type(&[], 5));
}

#[test]
fn the_last_parameter_sets_are_extracted() {
    let data = [
        0u8, 0, 1, 0x67, 0x01, 0, 0, 1, 0x68, 0x02, 0, 0, 0, 1, 0x67, 0x03, 0, 0, 1, 0x65, 0x88,
    ];
    let (sps, pps) = extract_parameter_sets(&data);
    assert_eq!(sps, Some(vec![0, 0, 0, 1, 0x67, 0x03]));
    assert_eq!(pps, Some(vec![0, 0, 0, 1, 0x68, 0x02]));
    let (sps, pps) = extract_parameter_sets(&[0, 0, 1, 0x65, 0x88]);
    assert_eq!(sps, None);
    assert_eq!(pps, None);
}

#[test]
fn video_payload_is_found_at_the_usual_offset() {
    let data = video_message(21, 0x04, 0x0102_0304_0506_0708, &[0, 0, 0, 1, 0x65, 0x88]);
    assert_eq!(detect_video_payload_offset(&data), Some(21));
    let frame = parse_video_packet(&data).expect("frame");
    assert_eq!(frame.kind, 0x04);
    assert_eq!(frame.timestamp_ns, 0x0102_0304_0506_0708);
    assert_eq!(frame.payload, &[0, 0, 0, 1, 0x65, 0x88][..]);
}

fn bare_message(header_len: usize, payload: &[u8]) -> Vec<u8> {
    // 0xE0 has NAL type 0, so no byte of the header can pass for a payload
    let mut data = vec![0xE0u8; header_len];
    data[0] = b'M';
    data[1] = b'R';
    data[2] = 0x01;
    data[4] = 0x04;
    data.extend_from_slice(payload);
    data
}

#[test]
fn video_payload_is_found_behind_headers_of_other_lengths() {
    let annexb = [0u8, 0, 0, 1, 0xE0, 0xE0, 0xE0];
    assert_eq!(detect_video_payload_offset(&bare_message(19, &annexb)), Some(19));
    assert_eq!(detect_video_payload_offset(&bare_message(22, &annexb)), Some(22));
    assert_eq!(detect_video_payload_offset(&bare_message(23, &annexb)), Some(23));
    assert_eq!(detect_video_payload_offset(&bare_message(24, &annexb)), Some(24));
    assert_eq!(detect_video_payload_offset(&bare_message(25, &annexb)), None);
    let short = [0u8, 0, 1, 0xE0, 0xE0, 0xE0, 0xE0];
    assert_eq!(detect_video_payload_offset(&bare_message(18, &short)), Some(18));
    let raw = [0x41u8, 0xE0, 0xE0];
    assert_eq!(detect_video_payload_offset(&bare_message(20, &raw)), Some(20));
    let message = bare_message(20, &raw);
    let frame = parse_video_packet(&message).expect("frame");
    assert_eq!(frame.payload, &raw[..]);
}

#[test]
fn the_usual_offset_wins_over_an_earlier_one() {
    // a payload begins at 18, but what stands at 21 looks like a payload too
    let data = bare_message(18, &[0, 0, 0, 1, 0x65, 0x88]);
    assert_eq!(detect_video_payload_offset(&data), Some(21));
    let frame = parse_video_packet(&data).expect("frame");
    assert_eq!(frame.payload, &[1, 0x65, 0x88][..]);
    // and the shortest header wins over the scan
    let data = bare_message(18, &[0x41, 0x41, 0xE0, 0xE0]);
    assert_eq!(detect_video_payload_offset(&data), Some(18));
}

#[test]
fn video_message_without_a_plausible_payload_is_dropped() {
    let mut data = vec![0xE0u8; 30];
    data[0] = b'M';
    data[1] = b'R';
    data[2] = 0x01;
    assert_eq!(detect_video_payload_offset(&data), None);
    assert!(parse_video_packet(&data).is_none());
}

#[test]
fn video_message_needs_magic_and_length() {
    let good = video_message(21, 0x04, 5, &[0x65, 0x88]);
    assert!(parse_video_packet(&good).is_some());
    let mut bad = good.clone();
    bad[2] = 0x02;
    assert!(parse_video_packet(&bad).is_none());
    let mut bad = good.clone();
    bad[0] = b'X';
    assert!(parse_video_packet(&bad).is_none());
    assert!(parse_video_packet(&good[..17]).is_none());
    assert!(parse_video_packet(&[]).is_none());
    // exactly the shortest header and nothing behind it
    let mut bare = vec![0xE0u8; 18];
    bare[0] = b'M';
    bare[1] = b'R';
    bare[2] = 0x01;
    assert!(parse_video_packet(&bare).is_none());
}

#[test]
fn plausible_payloads() {
    assert!(!looks_like_h264_payload(&[]));
    assert!(looks_like_h264_payload(&[0, 0, 1]));
    assert!(looks_like_h264_payload(&[0, 0, 0, 1, 0x65]));
    assert!(looks_like_h264_payload(&[0, 1, 0x65]));
    assert!(looks_like_h264_payload(&[0x41]));
    assert!(!looks_like_h264_payload(&[0x00]));
    assert!(!looks_like_h264_payload(&[0xE0, 0x01]));
}

#[test]
fn audio_message_is_decoded() {
    let data = audio_message(0x02, 123_456_789, &[1, 2, 3]);
    let frame = parse_audio_packet(&data).expect("frame");
    assert_eq!(frame.kind, 0x02);
    assert_eq!(frame.timestamp_ns, 123_456_789);
    assert_eq!(frame.payload, &[1, 2, 3][..]);
    let empty = audio_message(0x01, u64::MAX, &[]);
    let frame = parse_audio_packet(&empty).expect("frame");
    assert_eq!(frame.timestamp_ns, u64::MAX);
    assert!(frame.payload.is_empty());
}

#[test]
fn audio_message_needs_magic_and_length() {
    let good = audio_message(0x02, 1, &[1]);
    let mut bad = good.clone();
    bad[2] = 0x01;
    assert!(parse_audio_packet(&bad).is_none());
    assert!(parse_audio_packet(&good[..16]).is_none());
}

#[test]
fn hex_prefix_renders_pairs_with_blanks() {
    assert_eq!(hex_prefix(&[0x00, 0x0A, 0xFF, 0x47], 3), "00 0a ff");
    assert_eq!(hex_prefix(&[0x00, 0x0A], 8), "00 0a");
    assert_eq!(hex_prefix(&[0x9C], 1), "9c");
    assert_eq!(hex_prefix(&[1, 2], 0), "");
    assert_eq!(hex_prefix(&[], 4), "");
}

#[test]
fn nal_types_preview_lists_types_in_decimal() {
    let data = [0u8, 0, 0, 1, 0x67, 0x42, 0, 0, 1, 0x68, 0xCE, 0, 0, 0, 1, 0x65, 0x88];
    assert_eq!(nal_types_preview(&data, 8), "7,8,5");
    assert_eq!(nal_types_preview(&data, 2), "7,8");
    assert_eq!(nal_types_preview(&data, 0), "-");
    assert_eq!(nal_types_preview(&[1, 2, 3], 8), "-");
    assert_eq!(nal_types_preview(&[0, 0, 1, 0x1F, 0, 0, 1, 0x20, 0, 0, 1, 0x0A], 8), "31,0,10");
    // a unit of one zero byte in front of a start code is taken for part of it
    assert_eq!(nal_types_preview(&[0, 0, 1, 0x1F, 0, 0, 1, 0x00, 0, 0, 1, 0x0A], 8), "31,10");
}
