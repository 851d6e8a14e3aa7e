//! The header fields of a WAV file and the device format derived from them.
use vstd::prelude::*;

verus! {

/// Number of bytes of the canonical WAV header that precedes the PCM stream.
pub const HEADER_LEN: usize = 44;

/// Number of leading header bytes that carry the fields a player needs.
pub const HEADER_FIELDS_END: usize = 36;

/// The 16-bit little-endian number stored at `bytes[at]` and `bytes[at + 1]`.
pub open spec fn le_u16(bytes: Seq<u8>, at: int) -> int {
    bytes[at] as int + 256 * (bytes[at + 1] as int)
}

/// The 32-bit little-endian number stored at `bytes[at]` to `bytes[at + 3]`.
pub open spec fn le_u32(bytes: Seq<u8>, at: int) -> int {
    bytes[at] as int + 256 * (bytes[at + 1] as int) + 65536 * (bytes[at + 2] as int) + 16777216 * (
    bytes[at + 3] as int)
}

fn read_le_u16(bytes: &[u8], at: usize) -> (value: u16)
    requires
        at + 1 < bytes@.len(),
    ensures
        value as int == le_u16(bytes@, at as int),
{
    let lo: u16 = bytes[at] as u16;
    let hi: u16 = bytes[at + 1] as u16;
    lo + hi * 256
}

fn read_le_u32(bytes: &[u8], at: usize) -> (value: u32)
    requires
        at + 3 < bytes@.len(),
    ensures
        value as int == le_u32(bytes@, at as int),
{
    let b0: u32 = bytes[at] as u32;
    let b1: u32 = bytes[at + 1] as u32;
    let b2: u32 = bytes[at + 2] as u32;
    let b3: u32 = bytes[at + 3] as u32;
    b0 + b1 * 256 + b2 * 65536 + b3 * 16777216
}

/// The four scalar fields of a WAV header that configure the device.
#[derive(Clone, Copy, Debug, PartialEq, Eq, Structural)]
pub struct WavHeader {
    /// Coding tag, at byte offset 20.
    pub audio_format: u16,
    /// Channel count, at byte offset 22.
    pub num_channels: u16,
    /// Sample rate in hertz, at byte offset 24.
    pub sample_rate: u32,
    /// Bits per sample, at byte offset 34.
    pub bit_depth: u16,
}

impl WavHeader {
    /// The header that the leading bytes of a WAV file encode.
    pub open spec fn decoded(bytes: Seq<u8>) -> WavHeader {
        WavHeader {
            audio_format: le_u16(bytes, 20) as u16,
            num_channels: le_u16(bytes, 22) as u16,
            sample_rate: le_u32(bytes, 24) as u32,
            bit_depth: le_u16(bytes, 34) as u16,
        }
    }

    /// Reads the four fields from their fixed offsets.
    ///
    /// The buffer has to reach past the last field; the bytes between and
    /// after the fields are not looked at.
    pub fn from_bytes(header_buf: &[u8]) -> (header: Self)
        requires
            header_buf@.len() >= HEADER_FIELDS_END,
        ensures
            header == Self::decoded(header_buf@),
            header.audio_format as int == le_u16(header_buf@, 20),
            header.num_channels as int == le_u16(header_buf@, 22),
            header.sample_rate as int == le_u32(header_buf@, 24),
            header.bit_depth as int == le_u16(header_buf@, 34),
    {
        let audio_format: u16 = read_le_u16(header_buf, 20);
        let num_channels: u16 = read_le_u16(header_buf, 22);
        let sample_rate: u32 = read_le_u32(header_buf, 24);
        let bit_depth: u16 = read_le_u16(header_buf, 34);
        WavHeader { audio_format, num_channels, sample_rate, bit_depth }
    }
}

/// The format a device is configured with.
///
/// The first four fields come from the header as they are; the last two are
/// derived from them. A format is fit for playback when [`WaveFormat::wf`]
/// holds.
#[derive(Clone, Copy, Debug, PartialEq, Eq, Structural)]
pub struct WaveFormat {
    pub coding_tag: u16,
    pub channel_count: u16,
    pub sample_rate_hz: u32,
    pub bits_per_sample: u16,
    /// Bytes per frame: `channel_count * bits_per_sample / 8`.
    pub block_align_bytes: u32,
    /// Bytes per second: `sample_rate_hz * block_align_bytes`.
    pub avg_bytes_per_sec: u64,
}

impl WaveFormat {
    /// The format that belongs to a header.
    pub open spec fn of(header: WavHeader) -> WaveFormat {
        let block_align: int = (header.num_channels as int) * (header.bit_depth as int) / 8;
        WaveFormat {
            coding_tag: header.audio_format,
            channel_count: header.num_channels,
            sample_rate_hz: header.sample_rate,
            bits_per_sample: header.bit_depth,
            block_align_bytes: block_align as u32,
            avg_bytes_per_sec: ((header.sample_rate as int) * block_align) as u64,
        }
    }

    /// The two derived fields agree with the four that come from the header.
    pub open spec fn is_derived(&self) -> bool {
        &&& self.block_align_bytes as int == (self.channel_count as int) * (
        self.bits_per_sample as int) / 8
        &&& self.avg_bytes_per_sec as int == (self.sample_rate_hz as int) * (
        self.block_align_bytes as int)
    }

    /// Whole bytes per sample, and at least one byte per frame.
    pub open spec fn is_playable(&self) -> bool {
        &&& self.block_align_bytes > 0
        &&& self.bits_per_sample % 8 == 0
    }

    /// The invariant of a format that a source hands to a device.
    pub open spec fn wf(&self) -> bool {
        self.is_derived() && self.is_playable()
    }

    /// The derived fields of `of` are computed without loss: the block
    /// alignment fits 32 bits and the byte rate 64 bits, whatever the header.
    pub proof fn lemma_of_is_derived(header: WavHeader)
        ensures
            Self::of(header).is_derived(),
            Self::of(header).block_align_bytes as int == (header.num_channels as int) * (
            header.bit_depth as int) / 8,
    {
        let c: int = header.num_channels as int;
        let b: int = header.bit_depth as int;
        let r: int = header.sample_rate as int;
        assert(0 <= c * b <= 65535 * 65535) by (nonlinear_arith)
            requires
                0 <= c <= 65535,
                0 <= b <= 65535,
        ;
        let block_align: int = c * b / 8;
        assert(0 <= block_align <= 536854528);
        assert(0 <= r * block_align <= 4294967295 * 536854528) by (nonlinear_arith)
            requires
                0 <= r <= 4294967295,
                0 <= block_align <= 536854528,
        ;
    }

    /// Derives the device format from the fields of a header.
    pub fn derive(header: &WavHeader) -> (format: WaveFormat)
        ensures
            format == Self::of(*header),
            format.is_derived(),
    {
        proof {
            Self::lemma_of_is_derived(*header);
        }
        let channels: u32 = header.num_channels as u32;
        let bits: u32 = header.bit_depth as u32;
        assert(channels * bits <= 65535 * 65535) by (nonlinear_arith)
            requires
                channels <= 65535,
                bits <= 65535,
        ;
        let block_align: u32 = channels * bits / 8;
        let rate: u64 = header.sample_rate as u64;
        let wide_align: u64 = block_align as u64;
        assert(rate * wide_align <= 4294967295 * 536854528) by (nonlinear_arith)
            requires
                rate <= 4294967295,
                wide_align <= 536854528,
        ;
        WaveFormat {
            coding_tag: header.audio_format,
            channel_count: header.num_channels,
            sample_rate_hz: header.sample_rate,
            bits_per_sample: header.bit_depth,
            block_align_bytes: block_align,
            avg_bytes_per_sec: rate * wide_align,
        }
    }

    /// Tells whether the format has whole bytes per sample and a frame of at
    /// least one byte.
    pub fn check_playable(&self) -> (playable: bool)
        ensures
            playable == self.is_playable(),
    {
        self.block_align_bytes > 0 && self.bits_per_sample % 8 == 0
    }
}

impl Default for WaveFormat {
    /// The format with every field zero, to be filled in by a source.
    fn default() -> (format: WaveFormat)
        ensures
            format == (WaveFormat {
                coding_tag: 0,
                channel_count: 0,
                sample_rate_hz: 0,
                bits_per_sample: 0,
                block_align_bytes: 0,
                avg_bytes_per_sec: 0,
            }),
    {
        WaveFormat {
            coding_tag: 0,
            channel_count: 0,
            sample_rate_hz: 0,
            bits_per_sample: 0,
            block_align_bytes: 0,
            avg_bytes_per_sec: 0,
        }
    }
}

} // verus!
