//! The render loop as a transition system: what the loop knows, what the
//! device tells it, and what it asks of the device next.
use crate::pcm_source::PcmSource;
use crate::wave_format::WaveFormat;
use vstd::prelude::*;

verus! {

/// Device ticks (units of 100 nanoseconds) in a second.
pub const REFTIMES_PER_SEC: i64 = 10_000_000;

/// Device ticks in a millisecond.
pub const REFTIMES_PER_MILLISEC: i64 = 10_000;

/// The two ways to play a source.
#[derive(Clone, Copy, Debug, PartialEq, Eq, Structural)]
pub enum PlaybackMode {
    /// One pass through the source, ending in silence and a stop.
    Bounded,
    /// The source starts over whenever it runs dry, until playback is
    /// cancelled.
    Continuous,
}

impl PlaybackMode {
    /// The buffer duration asked of the device: one second in bounded mode,
    /// two in continuous mode.
    pub open spec fn requested_ticks(self) -> i64 {
        match self {
            PlaybackMode::Bounded => REFTIMES_PER_SEC,
            PlaybackMode::Continuous => 20_000_000i64,
        }
    }

    /// The buffer duration asked of the device, in ticks.
    pub fn requested_duration_ticks(self) -> (ticks: i64)
        ensures
            ticks == self.requested_ticks(),
            self == PlaybackMode::Bounded ==> ticks == REFTIMES_PER_SEC,
            self == PlaybackMode::Continuous ==> ticks == 2 * REFTIMES_PER_SEC,
    {
        match self {
            PlaybackMode::Bounded => REFTIMES_PER_SEC,
            PlaybackMode::Continuous => 2 * REFTIMES_PER_SEC,
        }
    }
}

/// The numbers of an output session.
#[derive(Clone, Copy, Debug, PartialEq, Eq, Structural)]
pub struct PlaybackState {
    /// The buffer duration that was asked for.
    pub requested_buffer_duration_ticks: i64,
    /// The size of the device buffer, in frames. Fixed once negotiated.
    pub negotiated_frame_capacity: u32,
    /// The frames queued in the device buffer when it was last asked.
    pub current_padding_frames: u32,
}

/// Half the time the device takes to play a buffer of `frame_capacity`
/// frames, in whole milliseconds.
pub open spec fn half_cycle(frame_capacity: u32, sample_rate_hz: u32) -> int {
    (REFTIMES_PER_SEC as int) * (frame_capacity as int) / (sample_rate_hz as int) / (
    REFTIMES_PER_MILLISEC as int) / 2
}

/// Whether a buffer of `frame_capacity` frames plays for less than
/// `requested_ticks`.
pub open spec fn falls_short(frame_capacity: u32, sample_rate_hz: u32, requested_ticks: i64) -> bool {
    (frame_capacity as int) * (REFTIMES_PER_SEC as int) < (requested_ticks as int) * (
    sample_rate_hz as int)
}

impl PlaybackState {
    /// The session before anything was negotiated.
    pub open spec fn initial() -> PlaybackState {
        PlaybackState {
            requested_buffer_duration_ticks: 0,
            negotiated_frame_capacity: 0,
            current_padding_frames: 0,
        }
    }

    /// No more frames are queued than the buffer holds.
    pub open spec fn wf(&self) -> bool {
        self.current_padding_frames <= self.negotiated_frame_capacity
    }

    /// The frames the device can take now.
    pub open spec fn available(&self) -> int {
        self.negotiated_frame_capacity - self.current_padding_frames
    }

    /// The frames the device can take now: its capacity less the frames
    /// still queued. Never more than the capacity.
    pub fn current_available_frames(&self) -> (frames: u32)
        requires
            self.wf(),
        ensures
            frames == self.available(),
            0 <= frames <= self.negotiated_frame_capacity,
    {
        self.negotiated_frame_capacity - self.current_padding_frames
    }

    /// Half the time the device takes to play its whole buffer, in
    /// milliseconds: the interval at which the loop looks after the device.
    pub fn half_cycle_millis(&self, sample_rate_hz: u32) -> (millis: u64)
        requires
            sample_rate_hz > 0,
        ensures
            millis == half_cycle(self.negotiated_frame_capacity, sample_rate_hz),
    {
        let capacity: u64 = self.negotiated_frame_capacity as u64;
        let rate: u64 = sample_rate_hz as u64;
        let ticks: u64 = 10_000_000 * capacity / rate;
        ticks / 10_000 / 2
    }

    /// Tells whether the negotiated buffer plays for less than was asked
    /// for.
    pub fn check_shortfall(&self, sample_rate_hz: u32) -> (short: bool)
        ensures
            short == falls_short(
                self.negotiated_frame_capacity,
                sample_rate_hz,
                self.requested_buffer_duration_ticks,
            ),
    {
        let capacity: i128 = self.negotiated_frame_capacity as i128;
        let rate: i128 = sample_rate_hz as i128;
        let requested: i128 = self.requested_buffer_duration_ticks as i128;
        assert(-0x8000_0000_0000_0000 * 0x1_0000_0000 <= requested * rate <= 0x8000_0000_0000_0000
            * 0x1_0000_0000) by (nonlinear_arith)
            requires
                -0x8000_0000_0000_0000 <= requested <= 0x8000_0000_0000_0000,
                0 <= rate <= 0x1_0000_0000,
        ;
        capacity * 10_000_000 < requested * rate
    }
}

/// The four phases of playback.
#[derive(Clone, Copy, Debug, PartialEq, Eq, Structural)]
pub enum Phase {
    /// The device is being set up and has not started.
    Priming,
    /// The device plays and is fed from the source.
    Streaming,
    /// The source is done with; the device plays out what it holds and is
    /// stopped.
    Draining,
    /// Playback is over.
    Stopped,
}

/// Where the loop stands: the request it waits for the device to answer.
#[derive(Clone, Copy, Debug, PartialEq, Eq, Structural)]
pub enum Stage {
    /// Nothing has been asked yet.
    Idle,
    /// The format and buffer duration are with the device.
    Negotiating,
    /// The first buffer, filled before the device starts, is being written.
    Prefilling,
    /// The device has been told to start.
    Starting,
    /// The loop waits half a cycle before it looks after the device again.
    Sleeping,
    /// The device has been asked how many frames it still holds.
    Polling,
    /// A buffer is being written to the running device.
    Writing,
    /// The loop waits half a cycle for the device to play out.
    Flushing,
    /// The device has been told to stop.
    Stopping,
    /// Playback is over.
    Finished,
}

impl Stage {
    /// The phase a stage belongs to.
    pub open spec fn phase(self) -> Phase {
        match self {
            Stage::Idle | Stage::Negotiating | Stage::Prefilling | Stage::Starting => Phase::Priming,
            Stage::Sleeping | Stage::Polling | Stage::Writing => Phase::Streaming,
            Stage::Flushing | Stage::Stopping => Phase::Draining,
            Stage::Finished => Phase::Stopped,
        }
    }

    /// The phase a stage belongs to.
    pub fn current_phase(self) -> (phase: Phase)
        ensures
            phase == self.phase(),
    {
        match self {
            Stage::Idle | Stage::Negotiating | Stage::Prefilling | Stage::Starting => Phase::Priming,
            Stage::Sleeping | Stage::Polling | Stage::Writing => Phase::Streaming,
            Stage::Flushing | Stage::Stopping => Phase::Draining,
            Stage::Finished => Phase::Stopped,
        }
    }
}

impl Phase {
    /// The place of a phase in the order in which playback passes through
    /// them.
    pub open spec fn rank(self) -> nat {
        match self {
            Phase::Priming => 0,
            Phase::Streaming => 1,
            Phase::Draining => 2,
            Phase::Stopped => 3,
        }
    }
}

/// What the device answered to the last request.
#[derive(Clone, Copy, Debug, PartialEq, Eq, Structural)]
pub enum DeviceEvent {
    /// The session is there and nothing has been asked of it.
    Ready,
    /// The format was accepted; the device buffer holds `frame_capacity`
    /// frames.
    Negotiated { frame_capacity: u32 },
    /// The device buffer still holds `frames` frames.
    Padding { frames: u32 },
    /// The request was carried out.
    Done,
    /// The request failed.
    Failed,
}

/// Why playback was given up.
#[derive(Clone, Copy, Debug, PartialEq, Eq, Structural)]
pub enum PlaybackError {
    /// The source has a sample rate of zero.
    FormatRejected,
    /// The device turned the format down, or offered a buffer that plays
    /// for less than was asked for in continuous mode.
    NegotiationFailed,
    /// A buffer could not be written, or is too large to be held in memory.
    BufferFailed,
    /// The device did not start.
    StartFailed,
    /// The device did not say how many frames it holds, or named more than
    /// its buffer can hold.
    PaddingFailed,
    /// The device did not stop.
    StopFailed,
}

/// What the loop asks for next.
#[derive(Clone, Copy, Debug, PartialEq, Eq, Structural)]
pub enum Command {
    /// Set the device up for `format` with a buffer of the given duration;
    /// answer with `Negotiated`.
    Negotiate { format: WaveFormat, requested_duration_ticks: i64 },
    /// Take a buffer of `frames` frames from the device, copy the staged
    /// bytes into it and give it back, marked as silence if `silent`.
    Write { frames: u32, silent: bool },
    /// Start the device.
    Start,
    /// Wait for `millis` milliseconds.
    Sleep { millis: u64 },
    /// Ask the device how many frames it still holds; answer with
    /// `Padding`.
    QueryPadding,
    /// Stop the device.
    Stop,
    /// Playback came to its end. Nothing more is asked.
    Finish,
    /// Playback was given up. Nothing more is asked.
    Abort { error: PlaybackError },
}

/// What the loop knows between two steps.
pub struct LoopState {
    pub stage: Stage,
    pub playback: PlaybackState,
    /// The interval between two looks after the device, in milliseconds.
    pub half_cycle_millis: u64,
    /// The source reported exhaustion on the last fill.
    pub exhausted: bool,
    /// The reason playback is being given up, once there is one.
    pub failure: Option<PlaybackError>,
    /// The bytes of the buffer that was filled last.
    pub staged: Seq<u8>,
}

/// The result of a step: the loop and the source after it, and the request
/// that goes to the device.
pub struct Step {
    pub state: LoopState,
    pub source: PcmSource,
    pub command: Command,
}

impl LoopState {
    /// The loop before its first step.
    pub open spec fn initial() -> LoopState {
        LoopState {
            stage: Stage::Idle,
            playback: PlaybackState::initial(),
            half_cycle_millis: 0,
            exhausted: false,
            failure: None,
            staged: Seq::empty(),
        }
    }

    /// The invariant of the loop.
    pub open spec fn wf(self) -> bool {
        self.playback.wf()
    }

    /// The loop moves to `stage` and asks for `command`; the source is not
    /// touched.
    pub open spec fn proceed(self, source: PcmSource, stage: Stage, command: Command) -> Step {
        Step { state: LoopState { stage, ..self }, source, command }
    }

    /// Playback is given up for `error`. A device that runs is stopped
    /// first; the error is reported once that is done.
    pub open spec fn give_up(
        self,
        source: PcmSource,
        error: PlaybackError,
        device_started: bool,
    ) -> Step {
        if device_started {
            Step {
                state: LoopState { stage: Stage::Stopping, failure: Some(error), ..self },
                source,
                command: Command::Stop,
            }
        } else {
            Step {
                state: LoopState { stage: Stage::Finished, failure: Some(error), ..self },
                source,
                command: Command::Abort { error },
            }
        }
    }

    /// The first step: the format of the source goes to the device, unless
    /// its sample rate is zero.
    pub open spec fn begin(self, mode: PlaybackMode, source: PcmSource) -> Step {
        if source.format.sample_rate_hz == 0 {
            self.give_up(source, PlaybackError::FormatRejected, false)
        } else {
            self.proceed(
                source,
                Stage::Negotiating,
                Command::Negotiate {
                    format: source.format,
                    requested_duration_ticks: mode.requested_ticks(),
                },
            )
        }
    }

    /// A buffer of `frames` frames is filled from the source and staged for
    /// the device. In bounded mode the buffer is marked as silence when the
    /// source ran dry; in continuous mode it never is.
    pub open spec fn fill(
        self,
        mode: PlaybackMode,
        source: PcmSource,
        frames: u32,
        stage: Stage,
        device_started: bool,
    ) -> Step {
        if (frames as nat) * source.block_align() > usize::MAX {
            self.give_up(source, PlaybackError::BufferFailed, device_started)
        } else {
            let exhausted = mode == PlaybackMode::Bounded && source.runs_dry(frames as nat);
            Step {
                state: LoopState { stage, exhausted, staged: source.filled(frames as nat), ..self },
                source: match mode {
                    PlaybackMode::Bounded => source.after_bounded(frames as nat),
                    PlaybackMode::Continuous => source.after_looping(frames as nat),
                },
                command: Command::Write { frames, silent: exhausted },
            }
        }
    }

    /// The device accepted the format and named its capacity. In bounded
    /// mode the whole buffer is filled before the device starts; in
    /// continuous mode the device starts empty, provided its buffer plays
    /// for as long as was asked for.
    pub open spec fn negotiated(self, mode: PlaybackMode, source: PcmSource, frame_capacity: u32) -> Step {
        let rate = source.format.sample_rate_hz;
        let session = LoopState {
            playback: PlaybackState {
                requested_buffer_duration_ticks: mode.requested_ticks(),
                negotiated_frame_capacity: frame_capacity,
                current_padding_frames: 0,
            },
            half_cycle_millis: half_cycle(frame_capacity, rate) as u64,
            ..self
        };
        if rate == 0 {
            self.give_up(source, PlaybackError::FormatRejected, false)
        } else {
            match mode {
                PlaybackMode::Bounded => session.fill(
                    mode,
                    source,
                    frame_capacity,
                    Stage::Prefilling,
                    false,
                ),
                PlaybackMode::Continuous => if falls_short(
                    frame_capacity,
                    rate,
                    mode.requested_ticks(),
                ) {
                    self.give_up(source, PlaybackError::NegotiationFailed, false)
                } else {
                    session.proceed(source, Stage::Starting, Command::Start)
                },
            }
        }
    }

    /// The device named the frames it still holds: the room that is left is
    /// filled from the source.
    pub open spec fn polled(self, mode: PlaybackMode, source: PcmSource, padding: u32) -> Step {
        if padding > self.playback.negotiated_frame_capacity {
            self.give_up(source, PlaybackError::PaddingFailed, true)
        } else {
            let session = LoopState {
                playback: PlaybackState { current_padding_frames: padding, ..self.playback },
                ..self
            };
            session.fill(mode, source, session.playback.available() as u32, Stage::Writing, true)
        }
    }

    /// The end of a cycle, where the loop decides whether to go on. Bounded
    /// playback goes on while the source has not run dry and nobody asked
    /// for the end, and drains the device when it stops. Continuous
    /// playback goes on until somebody asks for the end, and then is over
    /// at once.
    pub open spec fn cycle_end(self, mode: PlaybackMode, source: PcmSource, running: bool) -> Step {
        match mode {
            PlaybackMode::Bounded => if !self.exhausted && running {
                self.proceed(
                    source,
                    Stage::Sleeping,
                    Command::Sleep { millis: self.half_cycle_millis },
                )
            } else {
                self.proceed(
                    source,
                    Stage::Flushing,
                    Command::Sleep { millis: self.half_cycle_millis },
                )
            },
            PlaybackMode::Continuous => if running {
                self.proceed(source, Stage::Polling, Command::QueryPadding)
            } else {
                self.proceed(source, Stage::Finished, Command::Finish)
            },
        }
    }

    /// The report that ends playback.
    pub open spec fn verdict(self) -> Command {
        match self.failure {
            Some(error) => Command::Abort { error },
            None => Command::Finish,
        }
    }

    /// The device answered the request to stop. An earlier failure is
    /// reported whatever the answer; otherwise the stop has to have worked.
    pub open spec fn stopped(self, source: PcmSource, event: DeviceEvent) -> Step {
        if self.failure is None && event != DeviceEvent::Done {
            self.give_up(source, PlaybackError::StopFailed, false)
        } else {
            self.proceed(source, Stage::Finished, self.verdict())
        }
    }

    /// One step of the render loop: from where the loop stands, what the
    /// device answered and whether playback is still wanted, to the request
    /// that goes to the device next.
    ///
    /// An answer other than the one that the outstanding request calls for
    /// counts as a failure of that request. Nothing is outstanding before
    /// the first step and nothing can fail in a wait, so there the answer is
    /// not looked at. `running` is looked at only where a cycle ends.
    pub open spec fn step(
        self,
        mode: PlaybackMode,
        source: PcmSource,
        event: DeviceEvent,
        running: bool,
    ) -> Step {
        match self.stage {
            Stage::Idle => self.begin(mode, source),
            Stage::Negotiating => match event {
                DeviceEvent::Negotiated { frame_capacity } => self.negotiated(
                    mode,
                    source,
                    frame_capacity,
                ),
                _ => self.give_up(source, PlaybackError::NegotiationFailed, false),
            },
            Stage::Prefilling => match event {
                DeviceEvent::Done => self.proceed(source, Stage::Starting, Command::Start),
                _ => self.give_up(source, PlaybackError::BufferFailed, false),
            },
            Stage::Starting => match event {
                DeviceEvent::Done => self.cycle_end(mode, source, running),
                _ => self.give_up(source, PlaybackError::StartFailed, false),
            },
            Stage::Sleeping => self.proceed(source, Stage::Polling, Command::QueryPadding),
            Stage::Polling => match event {
                DeviceEvent::Padding { frames } => self.polled(mode, source, frames),
                _ => self.give_up(source, PlaybackError::PaddingFailed, true),
            },
            Stage::Writing => match event {
                DeviceEvent::Done => self.cycle_end(mode, source, running),
                _ => self.give_up(source, PlaybackError::BufferFailed, true),
            },
            Stage::Flushing => self.proceed(source, Stage::Stopping, Command::Stop),
            Stage::Stopping => self.stopped(source, event),
            Stage::Finished => self.proceed(source, Stage::Finished, self.verdict()),
        }
    }

    /// The loop and the source after a run of steps, each with the answer of
    /// the device and the state of the cancellation flag at that step.
    pub open spec fn run(
        self,
        mode: PlaybackMode,
        source: PcmSource,
        inputs: Seq<(DeviceEvent, bool)>,
    ) -> Step
        decreases inputs.len(),
    {
        if inputs.len() == 0 {
            Step { state: self, source, command: self.verdict() }
        } else {
            let before = self.run(mode, source, inputs.drop_last());
            before.state.step(mode, before.source, inputs.last().0, inputs.last().1)
        }
    }

    /// A step keeps the loop and the source well formed.
    pub proof fn lemma_step_wf(
        self,
        mode: PlaybackMode,
        source: PcmSource,
        event: DeviceEvent,
        running: bool,
    )
        requires
            self.wf(),
            source.wf(),
        ensures
            self.step(mode, source, event, running).state.wf(),
            self.step(mode, source, event, running).source.wf(),
            self.step(mode, source, event, running).source.format == source.format,
            self.step(mode, source, event, running).source.pcm == source.pcm,
    {
    }

    /// The room that the loop finds in the device is never more than the
    /// device holds: a buffer that is written has as many frames as the
    /// capacity less the frames still queued, and no more than the capacity.
    /// Its bytes are what the source gives for that many frames, and the
    /// source has moved on by them. Bounded playback marks the buffer as
    /// silence exactly when the source ran dry; continuous playback never
    /// does.
    pub proof fn lemma_write_is_a_fill(
        self,
        mode: PlaybackMode,
        source: PcmSource,
        event: DeviceEvent,
        running: bool,
    )
        requires
            self.wf(),
            source.wf(),
            self.step(mode, source, event, running).command is Write,
        ensures
            ({
                let step = self.step(mode, source, event, running);
                let frames = step.command->frames;
                let silent = step.command->silent;
                &&& 0 <= frames <= step.state.playback.negotiated_frame_capacity
                &&& frames == step.state.playback.available()
                &&& step.state.staged == source.filled(frames as nat)
                &&& step.state.staged.len() == frames * source.block_align()
                &&& step.state.staged.len() <= usize::MAX
                &&& mode == PlaybackMode::Bounded ==> {
                    &&& step.source == source.after_bounded(frames as nat)
                    &&& silent == source.runs_dry(frames as nat)
                    &&& step.state.exhausted == silent
                }
                &&& mode == PlaybackMode::Continuous ==> {
                    &&& step.source == source.after_looping(frames as nat)
                    &&& !silent
                    &&& !step.state.exhausted
                }
            }),
    {
        let step = self.step(mode, source, event, running);
        source.lemma_filled_len((step.command->frames) as nat);
    }

    /// Only a step that writes a buffer reads from the source.
    pub proof fn lemma_source_moves_only_on_write(
        self,
        mode: PlaybackMode,
        source: PcmSource,
        event: DeviceEvent,
        running: bool,
    )
        ensures
            !(self.step(mode, source, event, running).command is Write) ==> self.step(
                mode,
                source,
                event,
                running,
            ).source == source,
    {
    }

    /// Playback never goes back to an earlier phase.
    pub proof fn lemma_phase_never_goes_back(
        self,
        mode: PlaybackMode,
        source: PcmSource,
        event: DeviceEvent,
        running: bool,
    )
        ensures
            self.stage.phase().rank() <= self.step(
                mode,
                source,
                event,
                running,
            ).state.stage.phase().rank(),
    {
    }

    /// Once playback is over it stays over: every further step leaves the
    /// loop and the source as they are and repeats the report.
    pub proof fn lemma_finished_is_final(
        self,
        mode: PlaybackMode,
        source: PcmSource,
        event: DeviceEvent,
        running: bool,
    )
        requires
            self.stage == Stage::Finished,
        ensures
            self.step(mode, source, event, running).state == self,
            self.step(mode, source, event, running).source == source,
            self.step(mode, source, event, running).command == self.verdict(),
            !(self.step(mode, source, event, running).command is Write),
    {
    }

    /// Once playback is over, no run of further steps changes the loop or
    /// reads from the source, whatever the device answers.
    pub proof fn lemma_finished_run(
        self,
        mode: PlaybackMode,
        source: PcmSource,
        inputs: Seq<(DeviceEvent, bool)>,
    )
        requires
            self.stage == Stage::Finished,
        ensures
            self.run(mode, source, inputs).state == self,
            self.run(mode, source, inputs).source == source,
            self.run(mode, source, inputs).command == self.verdict(),
        decreases inputs.len(),
    {
        if inputs.len() > 0 {
            self.lemma_finished_run(mode, source, inputs.drop_last());
        }
    }

    /// Cancellation in continuous playback: when the cancellation flag is
    /// found cleared at the end of a cycle, playback is over with that very
    /// step. The step reads nothing from the source, and neither does any
    /// step after it.
    pub proof fn lemma_cancellation_ends_playback(
        self,
        source: PcmSource,
        later: Seq<(DeviceEvent, bool)>,
    )
        requires
            self.stage == Stage::Starting || self.stage == Stage::Writing,
        ensures
            ({
                let step = self.step(PlaybackMode::Continuous, source, DeviceEvent::Done, false);
                &&& step.command == Command::Finish
                &&& step.state.stage == Stage::Finished
                &&& step.source == source
                &&& step.state.run(PlaybackMode::Continuous, step.source, later).source == source
                &&& step.state.run(PlaybackMode::Continuous, step.source, later).state
                    == step.state
            }),
    {
        let step = self.step(PlaybackMode::Continuous, source, DeviceEvent::Done, false);
        step.state.lemma_finished_run(PlaybackMode::Continuous, step.source, later);
    }

    /// Cancellation is seen within one cycle: a continuous playback that
    /// streams while the cancellation flag is cleared is past streaming
    /// after two steps at most, and writes one buffer at most on the way.
    pub proof fn lemma_cancellation_within_a_cycle(
        self,
        source: PcmSource,
        first: DeviceEvent,
        second: DeviceEvent,
    )
        requires
            self.stage == Stage::Polling || self.stage == Stage::Writing,
        ensures
            ({
                let one = self.step(PlaybackMode::Continuous, source, first, false);
                let two = one.state.step(PlaybackMode::Continuous, one.source, second, false);
                &&& two.state.stage.phase().rank() >= Phase::Draining.rank()
                &&& !(two.command is Write)
                &&& self.stage == Stage::Writing ==> !(one.command is Write)
            }),
    {
    }

    /// Bounded playback leaves streaming as soon as a cycle ends with the
    /// source run dry or the cancellation flag cleared: it waits half a
    /// cycle for the device to play out, stops the device and is over.
    pub proof fn lemma_bounded_drains(self, source: PcmSource, running: bool, any: DeviceEvent)
        requires
            self.stage == Stage::Starting || self.stage == Stage::Writing,
            self.failure is None,
            self.exhausted || !running,
        ensures
            ({
                let wait = self.step(PlaybackMode::Bounded, source, DeviceEvent::Done, running);
                let stop = wait.state.step(PlaybackMode::Bounded, wait.source, any, running);
                let end = stop.state.step(
                    PlaybackMode::Bounded,
                    stop.source,
                    DeviceEvent::Done,
                    running,
                );
                &&& wait.command == Command::Sleep { millis: self.half_cycle_millis }
                &&& wait.state.stage == Stage::Flushing
                &&& stop.command == Command::Stop
                &&& end.command == Command::Finish
                &&& end.state.stage == Stage::Finished
                &&& end.source == source
            }),
    {
    }

    /// A failure while the device runs stops the device before it is
    /// reported, and the report names the failure that came first.
    pub proof fn lemma_failure_stops_device(
        self,
        mode: PlaybackMode,
        source: PcmSource,
        running: bool,
        answer: DeviceEvent,
    )
        requires
            self.stage == Stage::Polling || self.stage == Stage::Writing,
            self.failure is None,
        ensures
            ({
                let failed = self.step(mode, source, DeviceEvent::Failed, running);
                let end = failed.state.step(mode, failed.source, answer, running);
                &&& failed.command == Command::Stop
                &&& failed.state.failure is Some
                &&& end.command == Command::Abort { error: failed.state.failure->0 }
                &&& end.state.stage == Stage::Finished
                &&& end.source == source
            }),
    {
    }
}

} // verus!
