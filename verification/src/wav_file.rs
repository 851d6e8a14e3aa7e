//! The PCM source: the contents of a WAV file, served frame by frame.
use crate::pcm_source::PcmSource;
use crate::wave_format::{WavHeader, WaveFormat, HEADER_LEN};
use vstd::prelude::*;

verus! {

/// Why the contents of a file cannot be played.
#[derive(Clone, Copy, Debug, PartialEq, Eq, Structural)]
pub enum StartupError {
    /// The contents are shorter than a WAV header.
    TruncatedHeader,
    /// The header describes frames of no bytes, or samples that do not fill
    /// whole bytes.
    UnplayableFormat,
}

/// What a fill reports besides the bytes it wrote.
#[derive(Clone, Copy, Debug, PartialEq, Eq, Structural)]
pub struct FillOutcome {
    /// Every frame of the buffer came from the stream.
    pub fully_written: bool,
    /// The source has nothing more to give and playback should drain and
    /// stop. A looping source never says so.
    pub exhausted: bool,
}

/// A WAV file held in memory, with a cursor into its PCM stream.
///
/// The stream starts behind the header. The cursor counts whole frames; it
/// moves forward with every fill and, in looping mode, goes back to frame
/// zero when a fill finds less than it was asked for.
#[derive(Debug)]
pub struct WavFile {
    wav_header: WavHeader,
    format: WaveFormat,
    contents: Vec<u8>,
    total_frames: usize,
    cursor: usize,
}

impl View for WavFile {
    type V = PcmSource;

    closed spec fn view(&self) -> PcmSource {
        PcmSource {
            format: self.format,
            pcm: self.contents@.skip(HEADER_LEN as int),
            position: self.cursor as nat,
        }
    }
}

impl WavFile {
    /// The header fields the file was opened with.
    pub closed spec fn header(&self) -> WavHeader {
        self.wav_header
    }

    /// The bytes the file was opened with, header included.
    pub closed spec fn contents(&self) -> Seq<u8> {
        self.contents@
    }

    /// How the fields hang together.
    pub closed spec fn inv(&self) -> bool {
        &&& self.contents@.len() >= HEADER_LEN
        &&& self.wav_header == WavHeader::decoded(self.contents@)
        &&& self.format == WaveFormat::of(self.wav_header)
        &&& self.total_frames == self@.total_frames()
        &&& self.cursor <= self.total_frames
    }

    /// The invariant of a source: its format is fit for playback, its
    /// stream is what follows the header, and its cursor is inside the
    /// stream.
    pub open spec fn wf(&self) -> bool {
        &&& self.inv()
        &&& self@.wf()
        &&& self@.format == WaveFormat::of(self.header())
        &&& self@.pcm == self.contents().skip(HEADER_LEN as int)
        &&& self.header() == WavHeader::decoded(self.contents())
    }

    /// Takes the contents of a WAV file and sets the cursor to frame zero.
    ///
    /// Contents too short for a header, and a header whose format has no
    /// whole bytes per sample or no bytes per frame, are turned down.
    pub fn new(contents: Vec<u8>) -> (opened: Result<WavFile, StartupError>)
        ensures
            match opened {
                Ok(file) => {
                    &&& contents@.len() >= HEADER_LEN
                    &&& WaveFormat::of(WavHeader::decoded(contents@)).is_playable()
                    &&& file.wf()
                    &&& file.contents() == contents@
                    &&& file@.position == 0
                },
                Err(StartupError::TruncatedHeader) => contents@.len() < HEADER_LEN,
                Err(StartupError::UnplayableFormat) => {
                    &&& contents@.len() >= HEADER_LEN
                    &&& !WaveFormat::of(WavHeader::decoded(contents@)).is_playable()
                },
            },
    {
        if contents.len() < HEADER_LEN {
            return Err(StartupError::TruncatedHeader);
        }
        let wav_header: WavHeader = WavHeader::from_bytes(contents.as_slice());
        let format: WaveFormat = WaveFormat::derive(&wav_header);
        if !format.check_playable() {
            return Err(StartupError::UnplayableFormat);
        }
        let stream_len: usize = contents.len() - HEADER_LEN;
        let total_frames: usize = stream_len / (format.block_align_bytes as usize);
        Ok(WavFile { wav_header, format, contents, total_frames, cursor: 0 })
    }

    /// The cursor: the number of frames served since the stream was last at
    /// its start.
    pub fn position(&self) -> (frames: usize)
        requires
            self.wf(),
        ensures
            frames == self@.position,
    {
        self.cursor
    }

    /// The number of whole frames between the cursor and the end of the
    /// stream.
    pub fn remaining_frames(&self) -> (frames: usize)
        requires
            self.wf(),
        ensures
            frames == self@.remaining_frames(),
    {
        self.total_frames - self.cursor
    }

    /// Writes the format of the source into `wave_format`.
    pub fn set_format(&self, wave_format: &mut WaveFormat)
        requires
            self.wf(),
        ensures
            *final(wave_format) == self@.format,
            *final(wave_format) == WaveFormat::of(self.header()),
            final(wave_format).wf(),
    {
        wave_format.coding_tag = self.wav_header.audio_format;
        wave_format.channel_count = self.wav_header.num_channels;
        wave_format.sample_rate_hz = self.wav_header.sample_rate;
        wave_format.bits_per_sample = self.wav_header.bit_depth;
        wave_format.block_align_bytes = self.format.block_align_bytes;
        wave_format.avg_bytes_per_sec = self.format.avg_bytes_per_sec;
    }

    /// Copies the frames that a request gets from the stream into the front
    /// of the buffer and zeroes the rest. The cursor is left to the caller.
    fn read_frames(&self, frames: u32, p_data: &mut [u8]) -> (served: usize)
        requires
            self.wf(),
            old(p_data)@.len() == (frames as nat) * self@.block_align(),
        ensures
            final(p_data)@ == self@.filled(frames as nat),
            served == self@.served(frames as nat),
            self.cursor + served <= self.total_frames,
    {
        let block_align: usize = self.format.block_align_bytes as usize;
        let whole: usize = self.contents.len();
        let len: usize = p_data.len();
        let left: usize = self.total_frames - self.cursor;
        let served: usize = if (frames as usize) <= left {
            frames as usize
        } else {
            left
        };
        proof {
            let source = self@;
            source.lemma_filled_len(frames as nat);
            source.lemma_frames_in_stream(source.position, served as nat);
            assert(source.pcm.len() == self.contents@.len() - HEADER_LEN);
            assert(self.cursor * block_align == source.position * source.block_align());
            assert((self.cursor + served) * block_align == (source.position + served as nat)
                * source.block_align());
            assert(served * block_align == (self.cursor + served) * block_align - self.cursor
                * block_align) by (nonlinear_arith);
            assert(served * block_align <= frames * block_align) by (nonlinear_arith)
                requires
                    served <= frames,
            ;
        }
        let start: usize = HEADER_LEN + self.cursor * block_align;
        let count: usize = served * block_align;
        let mut i: usize = 0;
        while i < count
            invariant
                i <= count <= len,
                len == p_data@.len(),
                start + count <= whole,
                whole == self.contents@.len(),
                forall|k: int| 0 <= k < i ==> p_data@[k] == self.contents@[start + k],
            decreases count - i,
        {
            p_data[i] = self.contents[start + i];
            i += 1;
        }
        while i < len
            invariant
                count <= i <= len,
                len == p_data@.len(),
                forall|k: int| 0 <= k < count ==> p_data@[k] == self.contents@[start + k],
                forall|k: int| count <= k < i ==> p_data@[k] == 0u8,
            decreases len - i,
        {
            p_data[i] = 0;
            i += 1;
        }
        proof {
            assert(p_data@ =~= self@.filled(frames as nat));
        }
        served
    }

    /// Fills the buffer with the next `buffer_frame_count` frames, in
    /// bounded mode.
    ///
    /// Frames that the stream no longer has are written as silence, and the
    /// outcome then reports the source as exhausted. The cursor moves past
    /// the frames that were copied and stays at the end of the stream.
    pub fn load_data(&mut self, buffer_frame_count: u32, p_data: &mut [u8]) -> (outcome:
        FillOutcome)
        requires
            old(self).wf(),
            old(p_data)@.len() == (buffer_frame_count as nat) * old(self)@.block_align(),
        ensures
            final(self).wf(),
            final(self).contents() == old(self).contents(),
            final(self)@ == old(self)@.after_bounded(buffer_frame_count as nat),
            final(p_data)@ == old(self)@.filled(buffer_frame_count as nat),
            outcome.exhausted == old(self)@.runs_dry(buffer_frame_count as nat),
            outcome.fully_written == !outcome.exhausted,
            buffer_frame_count <= old(self)@.remaining_frames() ==> {
                &&& final(p_data)@ == old(self)@.frames(
                    old(self)@.position,
                    buffer_frame_count as nat,
                )
                &&& final(self)@.position == old(self)@.position + buffer_frame_count
            },
            buffer_frame_count > old(self)@.remaining_frames() ==> {
                &&& outcome.exhausted
                &&& final(self)@.position == old(self)@.total_frames()
                &&& forall|i: int|
                    old(self)@.remaining_frames() * old(self)@.block_align() <= i
                        < buffer_frame_count * old(self)@.block_align() ==> final(p_data)@[i]
                        == 0u8
            },
    {
        let served: usize = self.read_frames(buffer_frame_count, p_data);
        proof {
            let source = self@;
            let requested = buffer_frame_count as nat;
            source.lemma_filled_len(requested);
            if source.runs_dry(requested) {
                source.lemma_request_beyond_stream(requested);
                source.lemma_frames_in_stream(source.position, source.remaining_frames());
            } else {
                source.lemma_request_within_stream(requested);
            }
        }
        self.cursor = self.cursor + served;
        let exhausted: bool = served < buffer_frame_count as usize;
        FillOutcome { fully_written: !exhausted, exhausted }
    }

    /// Fills the buffer with the next `buffer_frame_count` frames, in
    /// looping mode.
    ///
    /// Frames that the stream no longer has are written as silence, and the
    /// cursor then goes back to frame zero, so that the next fill starts the
    /// stream over. The source is never reported as exhausted.
    pub fn load_data_continously(&mut self, buffer_frame_count: u32, p_data: &mut [u8]) -> (outcome:
        FillOutcome)
        requires
            old(self).wf(),
            old(p_data)@.len() == (buffer_frame_count as nat) * old(self)@.block_align(),
        ensures
            final(self).wf(),
            final(self).contents() == old(self).contents(),
            final(self)@ == old(self)@.after_looping(buffer_frame_count as nat),
            final(p_data)@ == old(self)@.filled(buffer_frame_count as nat),
            !outcome.exhausted,
            outcome.fully_written == !old(self)@.runs_dry(buffer_frame_count as nat),
            buffer_frame_count <= old(self)@.remaining_frames() ==> {
                &&& final(p_data)@ == old(self)@.frames(
                    old(self)@.position,
                    buffer_frame_count as nat,
                )
                &&& final(self)@.position == old(self)@.position + buffer_frame_count
            },
            buffer_frame_count > old(self)@.remaining_frames() ==> final(self)@.position == 0,
    {
        let served: usize = self.read_frames(buffer_frame_count, p_data);
        proof {
            let source = self@;
            let requested = buffer_frame_count as nat;
            source.lemma_filled_len(requested);
            if !source.runs_dry(requested) {
                source.lemma_request_within_stream(requested);
            }
        }
        let fully_written: bool = served == buffer_frame_count as usize;
        if fully_written {
            self.cursor = self.cursor + served;
        } else {
            self.cursor = 0;
        }
        FillOutcome { fully_written, exhausted: false }
    }
}

} // verus!
