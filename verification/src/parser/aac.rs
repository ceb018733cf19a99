//! AAC configuration and ADTS framing.

use vstd::prelude::*;

verus! {

/// Length of an ADTS header without CRC.
pub const ADTS_HEADER_LEN: usize = 7;

/// The parameters of an AAC stream that its ADTS headers repeat.
#[derive(Clone, Copy, Debug)]
pub struct AacConfig {
    pub audio_object_type: u8,
    pub sample_rate_index: u8,
    pub channel_config: u8,
}

impl Default for AacConfig {
    /// AAC-LC at 44.1 kHz in stereo.
    fn default() -> (config: Self)
        ensures
            config == AacConfig::standard(),
    {
        Self { audio_object_type: 2, sample_rate_index: 4, channel_config: 2 }
    }
}

impl AacConfig {
    /// The configuration assumed until the stream announces its own.
    pub open spec fn standard() -> AacConfig {
        AacConfig { audio_object_type: 2, sample_rate_index: 4, channel_config: 2 }
    }

    /// The configuration that an AudioSpecificConfig announces in its first
    /// two bytes: five bits of object type, four of sample rate index, four
    /// of channel configuration. None where the sample rate index is the
    /// reserved 15 or the channel configuration is 0.
    pub open spec fn of_asc(p: Seq<u8>) -> Option<AacConfig> {
        if p.len() < 2 {
            None
        } else {
            let audio_object_type = p[0] / 8;
            let sample_rate_index = ((p[0] % 8) * 2 + p[1] / 128) as u8;
            let channel_config = (p[1] / 8) % 16;
            if sample_rate_index == 0x0F || channel_config == 0 {
                None
            } else {
                Some(AacConfig { audio_object_type, sample_rate_index, channel_config })
            }
        }
    }

    /// Parses an AudioSpecificConfig.
    pub fn from_asc(payload: &[u8]) -> (r: Option<Self>)
        ensures
            r == Self::of_asc(payload@),
    {
        if payload.len() < 2 {
            return None;
        }
        let b0: u8 = payload[0];
        let b1: u8 = payload[1];
        assert(((b0 >> 3) & 0x1f) == b0 / 8 && (((b0 & 0x07) << 1) | (b1 >> 7)) == (b0 % 8) * 2 + b1
            / 128 && ((b1 >> 3) & 0x0f) == (b1 / 8) % 16) by (bit_vector);
        let audio_object_type: u8 = (b0 >> 3) & 0x1f;
        let sample_rate_index: u8 = ((b0 & 0x07) << 1) | (b1 >> 7);
        let channel_config: u8 = (b1 >> 3) & 0x0f;

        if sample_rate_index == 0x0f || channel_config == 0 {
            return None;
        }
        Some(Self { audio_object_type, sample_rate_index, channel_config })
    }

    /// The profile that ADTS records: the object type less one, in two bits.
    pub open spec fn profile(self) -> int {
        (if self.audio_object_type == 0 {
            0int
        } else {
            self.audio_object_type - 1
        }) % 4
    }

    /// The ADTS header of a frame of `payload_len` bytes: syncword, MPEG-4,
    /// no CRC; profile, sample rate index and channel configuration; the
    /// frame length, header included, in 13 bits; a buffer fullness of all
    /// ones; one raw data block.
    pub open spec fn adts_header_bytes(self, payload_len: int) -> Seq<u8> {
        let frame_len = payload_len + ADTS_HEADER_LEN;
        seq![
            0xFFu8,
            0xF1u8,
            (self.profile() * 64 + (self.sample_rate_index % 16) * 4 + (self.channel_config / 4)
                % 2) as u8,
            ((self.channel_config % 4) * 64 + (frame_len / 2048) % 4) as u8,
            ((frame_len / 8) % 256) as u8,
            ((frame_len % 8) * 32 + 0x1F) as u8,
            0xFCu8,
        ]
    }

    /// Builds the ADTS header of a frame of `payload_len` bytes.
    pub fn adts_header(self, payload_len: usize) -> (header: [u8; 7])
        requires
            payload_len + ADTS_HEADER_LEN <= usize::MAX,
        ensures
            header@ == self.adts_header_bytes(payload_len as int),
    {
        let frame_len: usize = payload_len + ADTS_HEADER_LEN;
        let lowered: u8 = self.audio_object_type.saturating_sub(1);
        let sri: u8 = self.sample_rate_index;
        let ch: u8 = self.channel_config;
        assert((lowered & 0x03) == lowered % 4 && (((lowered & 0x03) << 6) | ((sri & 0x0f) << 2) | ((
        ch >> 2) & 0x01)) == (lowered % 4) * 64 + (sri % 16) * 4 + (ch / 4) % 2) by (bit_vector);
        assert((((ch & 0x03) << 6) | ((frame_len >> 11) as u8 & 0x03)) == (ch % 4) * 64 + (frame_len
            / 2048) % 4 && ((frame_len >> 3) as u8) == (frame_len / 8) % 256 && ((((frame_len as u8)
            & 0x07) << 5) | 0x1f) == (frame_len % 8) * 32 + 0x1F) by (bit_vector);
        let profile: u8 = lowered & 0x03;
        let header: [u8; 7] = [
            0xff,
            0xf1,
            (profile << 6) | ((sri & 0x0f) << 2) | ((ch >> 2) & 0x01),
            ((ch & 0x03) << 6) | (#[verifier::truncate] ((frame_len >> 11) as u8) & 0x03),
            #[verifier::truncate] ((frame_len >> 3) as u8),
            ((#[verifier::truncate] (frame_len as u8) & 0x07) << 5) | 0x1f,
            0xfc,
        ];
        assert(header@ =~= self.adts_header_bytes(payload_len as int));
        header
    }
}

} // verus!
