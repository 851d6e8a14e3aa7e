//! The render loop: the player that turns the answers of the device into
//! the next request.
use crate::pcm_source::PcmSource;
use crate::playback::{
    Command, DeviceEvent, LoopState, Phase, PlaybackError, PlaybackMode, PlaybackState, Stage,
    Step,
};
use crate::wav_file::{FillOutcome, WavFile};
use crate::wave_format::WaveFormat;
use std::sync::atomic::AtomicBool;
use vstd::prelude::*;

verus! {

/// The render loop of one playback.
///
/// The player never touches a device. Whoever owns the device hands each of
/// its answers to [`WavPlayer::play_file`] or
/// [`WavPlayer::play_continously`], carries out the command that comes
/// back, and goes on until the command is `Finish` or `Abort`. The bytes of
/// a `Write` command are those of [`WavPlayer::staged`].
#[derive(Debug)]
pub struct WavPlayer {
    stage: Stage,
    playback: PlaybackState,
    half_cycle_millis: u64,
    exhausted: bool,
    failure: Option<PlaybackError>,
    staging: Vec<u8>,
}

impl View for WavPlayer {
    type V = LoopState;

    closed spec fn view(&self) -> LoopState {
        LoopState {
            stage: self.stage,
            playback: self.playback,
            half_cycle_millis: self.half_cycle_millis,
            exhausted: self.exhausted,
            failure: self.failure,
            staged: self.staging@,
        }
    }
}

impl WavPlayer {
    /// A player that has not begun.
    pub fn new() -> (player: Self)
        ensures
            player@ == LoopState::initial(),
            player@.wf(),
    {
        WavPlayer {
            stage: Stage::Idle,
            playback: PlaybackState {
                requested_buffer_duration_ticks: 0,
                negotiated_frame_capacity: 0,
                current_padding_frames: 0,
            },
            half_cycle_millis: 0,
            exhausted: false,
            failure: None,
            staging: Vec::new(),
        }
    }

    /// The phase playback is in.
    pub fn phase(&self) -> (phase: Phase)
        ensures
            phase == self@.stage.phase(),
    {
        self.stage.current_phase()
    }

    /// The numbers of the session.
    pub fn playback(&self) -> (playback: PlaybackState)
        ensures
            playback == self@.playback,
    {
        self.playback
    }

    /// The bytes of the buffer that was filled last: what a `Write` command
    /// asks to be written.
    pub fn staged(&self) -> (bytes: &[u8])
        ensures
            bytes@ == self@.staged,
    {
        self.staging.as_slice()
    }

    fn proceed(&mut self, stage: Stage, command: Command) -> (next: Command)
        ensures
            final(self)@ == (LoopState { stage, ..old(self)@ }),
            next == command,
    {
        self.stage = stage;
        command
    }

    fn give_up(&mut self, error: PlaybackError, device_started: bool) -> (next: Command)
        ensures
            final(self)@ == (LoopState {
                stage: if device_started {
                    Stage::Stopping
                } else {
                    Stage::Finished
                },
                failure: Some(error),
                ..old(self)@
            }),
            next == if device_started {
                Command::Stop
            } else {
                Command::Abort { error }
            },
    {
        self.failure = Some(error);
        if device_started {
            self.stage = Stage::Stopping;
            Command::Stop
        } else {
            self.stage = Stage::Finished;
            Command::Abort { error }
        }
    }

    fn verdict(&self) -> (report: Command)
        ensures
            report == self@.verdict(),
    {
        match self.failure {
            Some(error) => Command::Abort { error },
            None => Command::Finish,
        }
    }

    fn fill(
        &mut self,
        mode: PlaybackMode,
        input_file: &mut WavFile,
        frames: u32,
        stage: Stage,
        device_started: bool,
    ) -> (next: Command)
        requires
            old(input_file).wf(),
        ensures
            final(input_file).wf(),
            final(input_file).contents() == old(input_file).contents(),
            final(self)@ == old(self)@.fill(mode, old(input_file)@, frames, stage, device_started).state,
            final(input_file)@ == old(self)@.fill(
                mode,
                old(input_file)@,
                frames,
                stage,
                device_started,
            ).source,
            next == old(self)@.fill(mode, old(input_file)@, frames, stage, device_started).command,
    {
        let mut format: WaveFormat = WaveFormat::default();
        input_file.set_format(&mut format);
        let block_align: usize = format.block_align_bytes as usize;
        match (frames as usize).checked_mul(block_align) {
            None => self.give_up(PlaybackError::BufferFailed, device_started),
            Some(len) => {
                self.staging.clear();
                while self.staging.len() < len
                    invariant
                        self.staging@.len() <= len,
                        self.stage == old(self).stage,
                        self.playback == old(self).playback,
                        self.half_cycle_millis == old(self).half_cycle_millis,
                        self.exhausted == old(self).exhausted,
                        self.failure == old(self).failure,
                    decreases len - self.staging@.len(),
                {
                    self.staging.push(0);
                }
                let outcome: FillOutcome = match mode {
                    PlaybackMode::Bounded => input_file.load_data(
                        frames,
                        self.staging.as_mut_slice(),
                    ),
                    PlaybackMode::Continuous => input_file.load_data_continously(
                        frames,
                        self.staging.as_mut_slice(),
                    ),
                };
                self.exhausted = outcome.exhausted;
                self.stage = stage;
                Command::Write { frames, silent: outcome.exhausted }
            },
        }
    }

    /// One step of the render loop in the given mode.
    ///
    /// `event` is what the device answered to the command of the step
    /// before (`Ready` for the first step); `running` says whether playback
    /// is still wanted. The step is the one that [`LoopState::step`]
    /// describes: the player and the source end as it says, and the command
    /// that comes back is the one it names.
    pub fn advance(
        &mut self,
        mode: PlaybackMode,
        input_file: &mut WavFile,
        event: DeviceEvent,
        running: bool,
    ) -> (next: Command)
        requires
            old(self)@.wf(),
            old(input_file).wf(),
        ensures
            final(self)@.wf(),
            final(input_file).wf(),
            final(input_file).contents() == old(input_file).contents(),
            final(self)@ == old(self)@.step(mode, old(input_file)@, event, running).state,
            final(input_file)@ == old(self)@.step(mode, old(input_file)@, event, running).source,
            next == old(self)@.step(mode, old(input_file)@, event, running).command,
    {
        match self.stage {
            Stage::Idle => {
                let mut format: WaveFormat = WaveFormat::default();
                input_file.set_format(&mut format);
                if format.sample_rate_hz == 0 {
                    self.give_up(PlaybackError::FormatRejected, false)
                } else {
                    self.proceed(
                        Stage::Negotiating,
                        Command::Negotiate {
                            format,
                            requested_duration_ticks: mode.requested_duration_ticks(),
                        },
                    )
                }
            },
            Stage::Negotiating => match event {
                DeviceEvent::Negotiated { frame_capacity } => self.negotiated(
                    mode,
                    input_file,
                    frame_capacity,
                ),
                _ => self.give_up(PlaybackError::NegotiationFailed, false),
            },
            Stage::Prefilling => match event {
                DeviceEvent::Done => self.proceed(Stage::Starting, Command::Start),
                _ => self.give_up(PlaybackError::BufferFailed, false),
            },
            Stage::Starting => match event {
                DeviceEvent::Done => self.cycle_end(mode, running),
                _ => self.give_up(PlaybackError::StartFailed, false),
            },
            Stage::Sleeping => self.proceed(Stage::Polling, Command::QueryPadding),
            Stage::Polling => match event {
                DeviceEvent::Padding { frames } => {
                    if frames > self.playback.negotiated_frame_capacity {
                        self.give_up(PlaybackError::PaddingFailed, true)
                    } else {
                        self.playback.current_padding_frames = frames;
                        let available: u32 = self.playback.current_available_frames();
                        self.fill(mode, input_file, available, Stage::Writing, true)
                    }
                },
                _ => self.give_up(PlaybackError::PaddingFailed, true),
            },
            Stage::Writing => match event {
                DeviceEvent::Done => self.cycle_end(mode, running),
                _ => self.give_up(PlaybackError::BufferFailed, true),
            },
            Stage::Flushing => self.proceed(Stage::Stopping, Command::Stop),
            Stage::Stopping => {
                let failed: bool = match event {
                    DeviceEvent::Done => false,
                    _ => true,
                };
                if self.failure.is_none() && failed {
                    self.give_up(PlaybackError::StopFailed, false)
                } else {
                    let report: Command = self.verdict();
                    self.proceed(Stage::Finished, report)
                }
            },
            Stage::Finished => self.verdict(),
        }
    }

    fn negotiated(&mut self, mode: PlaybackMode, input_file: &mut WavFile, frame_capacity: u32) -> (next:
        Command)
        requires
            old(input_file).wf(),
        ensures
            final(input_file).wf(),
            final(input_file).contents() == old(input_file).contents(),
            final(self)@ == old(self)@.negotiated(mode, old(input_file)@, frame_capacity).state,
            final(input_file)@ == old(self)@.negotiated(
                mode,
                old(input_file)@,
                frame_capacity,
            ).source,
            next == old(self)@.negotiated(mode, old(input_file)@, frame_capacity).command,
    {
        let mut format: WaveFormat = WaveFormat::default();
        input_file.set_format(&mut format);
        let rate: u32 = format.sample_rate_hz;
        if rate == 0 {
            return self.give_up(PlaybackError::FormatRejected, false);
        }
        let session: PlaybackState = PlaybackState {
            requested_buffer_duration_ticks: mode.requested_duration_ticks(),
            negotiated_frame_capacity: frame_capacity,
            current_padding_frames: 0,
        };
        match mode {
            PlaybackMode::Bounded => {
                self.playback = session;
                self.half_cycle_millis = session.half_cycle_millis(rate);
                self.fill(mode, input_file, frame_capacity, Stage::Prefilling, false)
            },
            PlaybackMode::Continuous => {
                if session.check_shortfall(rate) {
                    self.give_up(PlaybackError::NegotiationFailed, false)
                } else {
                    self.playback = session;
                    self.half_cycle_millis = session.half_cycle_millis(rate);
                    self.proceed(Stage::Starting, Command::Start)
                }
            },
        }
    }

    fn cycle_end(&mut self, mode: PlaybackMode, running: bool) -> (next: Command)
        ensures
            forall|source: PcmSource|
                final(self)@ == (#[trigger] old(self)@.cycle_end(mode, source, running)).state,
            forall|source: PcmSource|
                next == (#[trigger] old(self)@.cycle_end(mode, source, running)).command,
    {
        match mode {
            PlaybackMode::Bounded => {
                let millis: u64 = self.half_cycle_millis;
                if !self.exhausted && running {
                    self.proceed(Stage::Sleeping, Command::Sleep { millis })
                } else {
                    self.proceed(Stage::Flushing, Command::Sleep { millis })
                }
            },
            PlaybackMode::Continuous => {
                if running {
                    self.proceed(Stage::Polling, Command::QueryPadding)
                } else {
                    self.proceed(Stage::Finished, Command::Finish)
                }
            },
        }
    }

    /// One step of bounded playback: a single pass through the source.
    ///
    /// The cancellation flag is read once, when the step begins; `true`
    /// means that playback is still wanted. Whatever it holds, the step is
    /// the one that [`WavPlayer::advance`] takes in bounded mode for that
    /// value.
    pub fn play_file(
        &mut self,
        input_file: &mut WavFile,
        signal_flag: &AtomicBool,
        event: DeviceEvent,
    ) -> (next: Command)
        requires
            old(self)@.wf(),
            old(input_file).wf(),
        ensures
            final(self)@.wf(),
            final(input_file).wf(),
            final(input_file).contents() == old(input_file).contents(),
            ({
                let after = Step {
                    state: final(self)@,
                    source: final(input_file)@,
                    command: next,
                };
                ||| after == old(self)@.step(PlaybackMode::Bounded, old(input_file)@, event, true)
                ||| after == old(self)@.step(PlaybackMode::Bounded, old(input_file)@, event, false)
            }),
    {
        let running: bool = signal_flag.load(std::sync::atomic::Ordering::SeqCst);
        self.advance(PlaybackMode::Bounded, input_file, event, running)
    }

    /// One step of continuous playback: the source starts over whenever it
    /// runs dry, until the cancellation flag is found `false` at the end of
    /// a cycle.
    ///
    /// The flag is read once, when the step begins. Whatever it holds, the
    /// step is the one that [`WavPlayer::advance`] takes in continuous mode
    /// for that value.
    pub fn play_continously(
        &mut self,
        input_file: &mut WavFile,
        signal_flag: &AtomicBool,
        event: DeviceEvent,
    ) -> (next: Command)
        requires
            old(self)@.wf(),
            old(input_file).wf(),
        ensures
            final(self)@.wf(),
            final(input_file).wf(),
            final(input_file).contents() == old(input_file).contents(),
            ({
                let after = Step {
                    state: final(self)@,
                    source: final(input_file)@,
                    command: next,
                };
                ||| after == old(self)@.step(PlaybackMode::Continuous, old(input_file)@, event, true)
                ||| after == old(self)@.step(PlaybackMode::Continuous, old(input_file)@, event, false)
            }),
    {
        let running: bool = signal_flag.load(std::sync::atomic::Ordering::SeqCst);
        self.advance(PlaybackMode::Continuous, input_file, event, running)
    }
}

} // verus!
