use wav_player::wav_file::{FillOutcome, WavFile};

/// A 16-bit stereo file (four bytes per frame) whose stream is `pcm`.
fn stereo_file(pcm: &[u8]) -> WavFile {
    let mut bytes = vec![0u8; 44];
    bytes[20..22].copy_from_slice(&1u16.to_le_bytes());
    bytes[22..24].copy_from_slice(&2u16.to_le_bytes());
    bytes[24..28].copy_from_slice(&44100u32.to_le_bytes());
    bytes[34..36].copy_from_slice(&16u16.to_le_bytes());
    bytes.extend_from_slice(pcm);
    WavFile::new(bytes).unwrap()
}

fn ramp(len: usize) -> Vec<u8> {
    (0..len).map(|i| (i % 251) as u8 + 1).collect()
}

#[test]
fn a_request_within_the_stream_is_served_without_silence() {
    let pcm = ramp(40);
    let mut file = stereo_file(&pcm);
    let mut buffer = vec![0xeeu8; 12];
    let outcome = file.load_data(3, &mut buffer);
    assert_eq!(outcome, FillOutcome { fully_written: true, exhausted: false });
    assert_eq!(buffer, pcm[0..12].to_vec());
}

#[test]
fn the_cursor_advances_by_the_frames_served() {
    let pcm = ramp(40);
    let mut file = stereo_file(&pcm);
    let mut first = vec![0u8; 12];
    let mut second = vec![0u8; 8];
    file.load_data(3, &mut first);
    let outcome = file.load_data(2, &mut second);
    assert_eq!(outcome, FillOutcome { fully_written: true, exhausted: false });
    assert_eq!(second, pcm[12..20].to_vec());
}

#[test]
fn a_request_for_exactly_what_is_left_is_not_exhaustion() {
    let pcm = ramp(40);
    let mut file = stereo_file(&pcm);
    let mut buffer = vec![0u8; 40];
    let outcome = file.load_data(10, &mut buffer);
    assert_eq!(outcome, FillOutcome { fully_written: true, exhausted: false });
    assert_eq!(buffer, pcm);
}

#[test]
fn a_request_beyond_the_stream_ends_in_silence_and_signals_exhaustion() {
    let pcm = ramp(40);
    let mut file = stereo_file(&pcm);
    let mut head = vec![0u8; 28];
    file.load_data(7, &mut head);
    let mut buffer = vec![0xeeu8; 24];
    let outcome = file.load_data(6, &mut buffer);
    assert_eq!(outcome, FillOutcome { fully_written: false, exhausted: true });
    assert_eq!(&buffer[0..12], &pcm[28..40]);
    assert_eq!(&buffer[12..24], &[0u8; 12]);
}

#[test]
fn an_exhausted_bounded_source_gives_only_silence() {
    let pcm = ramp(8);
    let mut file = stereo_file(&pcm);
    let mut buffer = vec![0xeeu8; 16];
    assert!(file.load_data(4, &mut buffer).exhausted);
    let mut again = vec![0xeeu8; 16];
    let outcome = file.load_data(4, &mut again);
    assert_eq!(outcome, FillOutcome { fully_written: false, exhausted: true });
    assert_eq!(again, vec![0u8; 16]);
}

#[test]
fn an_empty_stream_is_exhausted_at_once() {
    let mut file = stereo_file(&[]);
    let mut buffer = vec![0xeeu8; 8];
    let outcome = file.load_data(2, &mut buffer);
    assert_eq!(outcome, FillOutcome { fully_written: false, exhausted: true });
    assert_eq!(buffer, vec![0u8; 8]);
}

#[test]
fn a_request_for_no_frames_changes_nothing() {
    let pcm = ramp(8);
    let mut file = stereo_file(&pcm);
    let mut nothing: Vec<u8> = Vec::new();
    let outcome = file.load_data(0, &mut nothing);
    assert_eq!(outcome, FillOutcome { fully_written: true, exhausted: false });
    let mut buffer = vec![0u8; 8];
    file.load_data(2, &mut buffer);
    assert_eq!(buffer, pcm);
}

#[test]
fn a_request_for_no_frames_at_the_end_is_not_exhaustion() {
    let pcm = ramp(8);
    let mut file = stereo_file(&pcm);
    let mut buffer = vec![0u8; 8];
    file.load_data(2, &mut buffer);
    let mut nothing: Vec<u8> = Vec::new();
    let outcome = file.load_data(0, &mut nothing);
    assert_eq!(outcome, FillOutcome { fully_written: true, exhausted: false });
}

#[test]
fn bytes_behind_the_last_whole_frame_are_never_served() {
    let pcm = ramp(10);
    let mut file = stereo_file(&pcm);
    let mut buffer = vec![0xeeu8; 12];
    let outcome = file.load_data(3, &mut buffer);
    assert_eq!(outcome, FillOutcome { fully_written: false, exhausted: true });
    assert_eq!(&buffer[0..8], &pcm[0..8]);
    assert_eq!(&buffer[8..12], &[0u8; 4]);
}

#[test]
fn the_stream_starts_behind_the_header() {
    let mut bytes = vec![0x77u8; 44];
    bytes[20..22].copy_from_slice(&1u16.to_le_bytes());
    bytes[22..24].copy_from_slice(&1u16.to_le_bytes());
    bytes[24..28].copy_from_slice(&8000u32.to_le_bytes());
    bytes[34..36].copy_from_slice(&8u16.to_le_bytes());
    bytes.extend_from_slice(&[1, 2, 3]);
    let mut file = WavFile::new(bytes).unwrap();
    let mut buffer = vec![0u8; 3];
    file.load_data(3, &mut buffer);
    assert_eq!(buffer, vec![1, 2, 3]);
}

#[test]
fn looping_serves_like_bounded_while_the_stream_lasts() {
    let pcm = ramp(40);
    let mut file = stereo_file(&pcm);
    let mut first = vec![0u8; 16];
    let mut second = vec![0u8; 24];
    assert_eq!(
        file.load_data_continously(4, &mut first),
        FillOutcome { fully_written: true, exhausted: false }
    );
    assert_eq!(
        file.load_data_continously(6, &mut second),
        FillOutcome { fully_written: true, exhausted: false }
    );
    assert_eq!(first, pcm[0..16].to_vec());
    assert_eq!(second, pcm[16..40].to_vec());
}

#[test]
fn looping_pads_with_silence_and_never_signals_exhaustion() {
    let pcm = ramp(40);
    let mut file = stereo_file(&pcm);
    let mut head = vec![0u8; 32];
    file.load_data_continously(8, &mut head);
    let mut buffer = vec![0xeeu8; 20];
    let outcome = file.load_data_continously(5, &mut buffer);
    assert_eq!(outcome, FillOutcome { fully_written: false, exhausted: false });
    assert_eq!(&buffer[0..8], &pcm[32..40]);
    assert_eq!(&buffer[8..20], &[0u8; 12]);
}

#[test]
fn looping_starts_over_at_frame_zero_after_running_dry() {
    let pcm = ramp(40);
    let mut file = stereo_file(&pcm);
    let mut buffer = vec![0u8; 48];
    let outcome = file.load_data_continously(12, &mut buffer);
    assert!(!outcome.fully_written);
    let mut next = vec![0u8; 12];
    let outcome = file.load_data_continously(3, &mut next);
    assert_eq!(outcome, FillOutcome { fully_written: true, exhausted: false });
    assert_eq!(next, pcm[0..12].to_vec());
}

#[test]
fn looping_starts_over_after_a_fill_that_found_nothing() {
    let pcm = ramp(8);
    let mut file = stereo_file(&pcm);
    let mut all = vec![0u8; 8];
    assert!(file.load_data_continously(2, &mut all).fully_written);
    let mut none = vec![0xeeu8; 8];
    let outcome = file.load_data_continously(2, &mut none);
    assert_eq!(outcome, FillOutcome { fully_written: false, exhausted: false });
    assert_eq!(none, vec![0u8; 8]);
    let mut again = vec![0u8; 8];
    assert!(file.load_data_continously(2, &mut again).fully_written);
    assert_eq!(again, pcm);
}

#[test]
fn a_second_cycle_reproduces_the_first_byte_for_byte() {
    let pcm = ramp(52);
    let mut file = stereo_file(&pcm);
    let requests: [u32; 4] = [5, 0, 6, 4];
    let mut cycles: Vec<Vec<Vec<u8>>> = Vec::new();
    for _ in 0..3 {
        let mut cycle: Vec<Vec<u8>> = Vec::new();
        for (at, frames) in requests.iter().enumerate() {
            let mut buffer = vec![0xeeu8; *frames as usize * 4];
            let outcome = file.load_data_continously(*frames, &mut buffer);
            assert_eq!(outcome.fully_written, at + 1 < requests.len());
            cycle.push(buffer);
        }
        cycles.push(cycle);
    }
    assert_eq!(cycles[0][0], pcm[0..20].to_vec());
    assert_eq!(cycles[0][2], pcm[20..44].to_vec());
    assert_eq!(&cycles[0][3][0..8], &pcm[44..52]);
    assert_eq!(&cycles[0][3][8..16], &[0u8; 8]);
    assert_eq!(cycles[1], cycles[0]);
    assert_eq!(cycles[2], cycles[0]);
}

#[test]
fn an_empty_looping_stream_gives_silence_forever() {
    let mut file = stereo_file(&[]);
    for _ in 0..3 {
        let mut buffer = vec![0xeeu8; 8];
        let outcome = file.load_data_continously(2, &mut buffer);
        assert_eq!(outcome, FillOutcome { fully_written: false, exhausted: false });
        assert_eq!(buffer, vec![0u8; 8]);
    }
}

#[test]
fn a_new_source_stands_at_frame_zero() {
    let file = stereo_file(&ramp(40));
    assert_eq!(file.position(), 0);
    assert_eq!(file.remaining_frames(), 10);
}

#[test]
fn a_served_request_moves_the_cursor_by_exactly_its_frames() {
    let mut file = stereo_file(&ramp(40));
    let mut buffer = vec![0u8; 12];
    file.load_data(3, &mut buffer);
    assert_eq!(file.position(), 3);
    assert_eq!(file.remaining_frames(), 7);
    let mut buffer = vec![0u8; 28];
    file.load_data_continously(7, &mut buffer);
    assert_eq!(file.position(), 10);
    assert_eq!(file.remaining_frames(), 0);
}

#[test]
fn a_bounded_source_that_ran_dry_stays_at_its_end() {
    let mut file = stereo_file(&ramp(40));
    let mut buffer = vec![0u8; 48];
    file.load_data(12, &mut buffer);
    assert_eq!(file.position(), 10);
    file.load_data(12, &mut buffer);
    assert_eq!(file.position(), 10);
    assert_eq!(file.remaining_frames(), 0);
}

#[test]
fn a_looping_source_that_ran_dry_stands_at_frame_zero() {
    let mut file = stereo_file(&ramp(40));
    let mut buffer = vec![0u8; 48];
    file.load_data_continously(12, &mut buffer);
    assert_eq!(file.position(), 0);
    assert_eq!(file.remaining_frames(), 10);
}

#[test]
fn a_trailing_part_of_a_frame_does_not_count() {
    let file = stereo_file(&ramp(11));
    assert_eq!(file.remaining_frames(), 2);
}
