use wav_player::wav_file::{StartupError, WavFile};
use wav_player::wave_format::{WavHeader, WaveFormat, HEADER_FIELDS_END, HEADER_LEN};

fn header_bytes(tag: u16, channels: u16, rate: u32, bits: u16) -> Vec<u8> {
    let mut bytes = vec![0u8; 44];
    bytes[0..4].copy_from_slice(b"RIFF");
    bytes[8..12].copy_from_slice(b"WAVE");
    bytes[20..22].copy_from_slice(&tag.to_le_bytes());
    bytes[22..24].copy_from_slice(&channels.to_le_bytes());
    bytes[24..28].copy_from_slice(&rate.to_le_bytes());
    bytes[34..36].copy_from_slice(&bits.to_le_bytes());
    bytes
}

#[test]
fn header_lengths_are_those_of_the_canonical_header() {
    assert_eq!(HEADER_LEN, 44);
    assert_eq!(HEADER_FIELDS_END, 36);
}

#[test]
fn from_bytes_reads_the_four_fields_little_endian() {
    let mut bytes = vec![0xffu8; 44];
    bytes[20] = 0x01;
    bytes[21] = 0x00;
    bytes[22] = 0x02;
    bytes[23] = 0x00;
    bytes[24] = 0x44;
    bytes[25] = 0xac;
    bytes[26] = 0x00;
    bytes[27] = 0x00;
    bytes[34] = 0x10;
    bytes[35] = 0x00;
    let header = WavHeader::from_bytes(&bytes);
    assert_eq!(
        header,
        WavHeader { audio_format: 1, num_channels: 2, sample_rate: 44100, bit_depth: 16 }
    );
}

#[test]
fn from_bytes_uses_the_high_bytes() {
    let mut bytes = vec![0u8; 36];
    bytes[20] = 0xfe;
    bytes[21] = 0xff;
    bytes[22] = 0x34;
    bytes[23] = 0x12;
    bytes[24] = 0x78;
    bytes[25] = 0x56;
    bytes[26] = 0x34;
    bytes[27] = 0x12;
    bytes[34] = 0x00;
    bytes[35] = 0x80;
    let header = WavHeader::from_bytes(&bytes);
    assert_eq!(header.audio_format, 0xfffe);
    assert_eq!(header.num_channels, 0x1234);
    assert_eq!(header.sample_rate, 0x1234_5678);
    assert_eq!(header.bit_depth, 0x8000);
}

#[test]
fn from_bytes_ignores_the_bytes_between_the_fields() {
    let quiet = header_bytes(1, 1, 8000, 8);
    let mut noisy = quiet.clone();
    for at in (0..20).chain(28..34).chain(36..44) {
        noisy[at] = 0xa5;
    }
    assert_eq!(WavHeader::from_bytes(&quiet), WavHeader::from_bytes(&noisy));
}

#[test]
fn derive_computes_block_align_and_byte_rate() {
    let header = WavHeader { audio_format: 1, num_channels: 2, sample_rate: 44100, bit_depth: 16 };
    let format = WaveFormat::derive(&header);
    assert_eq!(
        format,
        WaveFormat {
            coding_tag: 1,
            channel_count: 2,
            sample_rate_hz: 44100,
            bits_per_sample: 16,
            block_align_bytes: 4,
            avg_bytes_per_sec: 176_400,
        }
    );
    assert!(format.check_playable());
}

#[test]
fn derive_does_not_overflow_on_the_largest_header() {
    let header = WavHeader {
        audio_format: u16::MAX,
        num_channels: u16::MAX,
        sample_rate: u32::MAX,
        bit_depth: u16::MAX,
    };
    let format = WaveFormat::derive(&header);
    assert_eq!(format.block_align_bytes, 536_854_528);
    assert_eq!(format.avg_bytes_per_sec, 4_294_967_295u64 * 536_854_528u64);
    assert!(!format.check_playable());
}

#[test]
fn block_align_rounds_down() {
    let header = WavHeader { audio_format: 1, num_channels: 1, sample_rate: 8000, bit_depth: 12 };
    let format = WaveFormat::derive(&header);
    assert_eq!(format.block_align_bytes, 1);
    assert_eq!(format.avg_bytes_per_sec, 8000);
    assert!(!format.check_playable());
}

#[test]
fn default_format_is_all_zero_and_not_playable() {
    let format = WaveFormat::default();
    assert_eq!(
        format,
        WaveFormat {
            coding_tag: 0,
            channel_count: 0,
            sample_rate_hz: 0,
            bits_per_sample: 0,
            block_align_bytes: 0,
            avg_bytes_per_sec: 0,
        }
    );
    assert!(!format.check_playable());
}

#[test]
fn truncated_header_is_a_startup_error() {
    let opened = WavFile::new(vec![0x52, 0x49, 0x46, 0x46, 0, 0, 0, 0, 0x57, 0x41]);
    assert_eq!(opened.err(), Some(StartupError::TruncatedHeader));
}

#[test]
fn empty_contents_are_a_startup_error() {
    assert_eq!(WavFile::new(Vec::new()).err(), Some(StartupError::TruncatedHeader));
}

#[test]
fn one_byte_short_of_a_header_is_a_startup_error() {
    let mut bytes = header_bytes(1, 2, 44100, 16);
    bytes.pop();
    assert_eq!(bytes.len(), 43);
    assert_eq!(WavFile::new(bytes).err(), Some(StartupError::TruncatedHeader));
}

#[test]
fn a_bare_header_opens_as_an_empty_stream() {
    let opened = WavFile::new(header_bytes(1, 2, 44100, 16));
    assert!(opened.is_ok());
}

#[test]
fn no_channels_is_an_unplayable_format() {
    let opened = WavFile::new(header_bytes(1, 0, 44100, 16));
    assert_eq!(opened.err(), Some(StartupError::UnplayableFormat));
}

#[test]
fn samples_of_part_of_a_byte_are_an_unplayable_format() {
    let opened = WavFile::new(header_bytes(1, 2, 44100, 12));
    assert_eq!(opened.err(), Some(StartupError::UnplayableFormat));
}

#[test]
fn samples_of_less_than_a_byte_are_an_unplayable_format() {
    let opened = WavFile::new(header_bytes(1, 1, 44100, 4));
    assert_eq!(opened.err(), Some(StartupError::UnplayableFormat));
}

#[test]
fn set_format_fills_in_every_field() {
    let file = WavFile::new(header_bytes(3, 6, 48000, 32)).unwrap();
    let mut format = WaveFormat::default();
    file.set_format(&mut format);
    assert_eq!(
        format,
        WaveFormat {
            coding_tag: 3,
            channel_count: 6,
            sample_rate_hz: 48000,
            bits_per_sample: 32,
            block_align_bytes: 24,
            avg_bytes_per_sec: 1_152_000,
        }
    );
}

#[test]
fn set_format_overwrites_what_was_there() {
    let file = WavFile::new(header_bytes(1, 1, 8000, 8)).unwrap();
    let mut format = WaveFormat {
        coding_tag: 9,
        channel_count: 9,
        sample_rate_hz: 9,
        bits_per_sample: 9,
        block_align_bytes: 9,
        avg_bytes_per_sec: 9,
    };
    file.set_format(&mut format);
    assert_eq!(
        format,
        WaveFormat {
            coding_tag: 1,
            channel_count: 1,
            sample_rate_hz: 8000,
            bits_per_sample: 8,
            block_align_bytes: 1,
            avg_bytes_per_sec: 8000,
        }
    );
}
