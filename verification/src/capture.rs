//! The capture-and-compose loop as a state machine.
//!
//! The loop owns no camera and no file. It says what to do next
//! ([`LoopAction`]) and is told what happened ([`Event`]). One iteration
//! polls the stop flag, reads both cameras, brings the frames to the target
//! size if they differ from it, joins them, polls again, writes the joined
//! frame, polls once more and sleeps out the rest of the frame interval.

use vstd::prelude::*;
use crate::frame::{CameraRead, CaptureConfig, FrameShape, side_by_side, side_by_side_spec};
use crate::protocol::{Event, Reply};
use crate::timing::{
    elapsed_between,
    elapsed_between_spec,
    remaining_pause,
    remaining_pause_spec,
    RETRY_PAUSE_NANOS,
};

verus! {

/// Why the loop stopped.
#[derive(Clone, Copy, Debug, PartialEq, Eq, Structural)]
pub enum LoopExit {
    /// The stop flag was found set.
    Cancelled,
    /// A frame could not be brought to the target size.
    ResizeFailed,
    /// The two frames could not be joined.
    ComposeFailed,
    /// The joined frame could not be written.
    WriteFailed,
}

/// Where the loop stands: each phase but the last waits for one reply.
#[derive(Clone, Copy, Debug, PartialEq, Eq, Structural)]
pub enum LoopPhase {
    /// Waiting for the stop flag at the head of an iteration.
    PollHead,
    /// Waiting for both cameras.
    Reading,
    /// Waiting for the stop flag after a dropped frame.
    PollAfterDrop,
    /// Sleeping before the read is tried again.
    Backoff,
    /// Waiting for both frames to be resized.
    Resizing,
    /// Waiting for the frames to be joined.
    Composing,
    /// Waiting for the stop flag just before the write.
    PollBeforeWrite,
    /// Waiting for the write.
    Writing,
    /// Waiting for the stop flag just after the write.
    PollAfterWrite,
    /// Sleeping out the rest of the frame interval.
    Pacing { nanos: u64 },
    /// The loop is over.
    Stopped { exit: LoopExit },
}

/// What the caller is asked to do.
#[derive(Clone, Copy, Debug, PartialEq, Eq, Structural)]
pub enum LoopAction {
    /// Read the stop flag and reply with `Flag`.
    PollCancellation,
    /// Read one frame from each camera and reply with `Frames`.
    ReadFrames,
    /// Sleep for `nanos` nanoseconds and reply with `Completed`.
    Pause { nanos: u64 },
    /// Resize both frames to `shape` and reply with `Completed`.
    ResizeBoth { shape: FrameShape },
    /// Join the frames, secondary on the left, and reply with `Completed`.
    Compose,
    /// Append the joined frame, which has size `shape`, to the temporary
    /// file and reply with `Completed`.
    WriteComposite { shape: FrameShape },
    /// Nothing more: the loop is over.
    Stop { exit: LoopExit },
}

/// The loop as a mathematical value: the counters are unbounded.
pub struct CaptureModel {
    pub config: CaptureConfig,
    pub interval: u64,
    pub phase: LoopPhase,
    pub valid_frames: nat,
    pub frames_written: nat,
    pub started_at: u64,
    pub iteration_started: u64,
    pub now: u64,
    pub primary: FrameShape,
    pub secondary: FrameShape,
    pub composite: FrameShape,
}

/// The loop as it runs.
#[derive(Clone, Copy, Debug, PartialEq, Eq, Structural)]
pub struct CaptureLoop {
    /// Target size and rate.
    pub config: CaptureConfig,
    /// Time allotted to one iteration, in nanoseconds.
    pub interval: u64,
    /// Where the loop stands.
    pub phase: LoopPhase,
    /// Frame pairs accepted for joining so far.
    pub valid_frames: u64,
    /// Joined frames written so far.
    pub frames_written: u64,
    /// Clock reading when the loop was created.
    pub started_at: u64,
    /// Clock reading at the head of the current iteration.
    pub iteration_started: u64,
    /// Clock reading of the latest reply taken.
    pub now: u64,
    /// Size of the primary frame in hand.
    pub primary: FrameShape,
    /// Size of the secondary frame in hand.
    pub secondary: FrameShape,
    /// Size of the joined frame in hand.
    pub composite: FrameShape,
}

impl LoopPhase {
    /// A frame pair has been counted and its joined frame is not written yet.
    pub open spec fn frame_in_hand(self) -> bool {
        self is Composing || self is PollBeforeWrite || self is Writing
    }

    /// An upper bound on the replies the loop still takes before it stops,
    /// once every poll finds the stop flag set.
    pub open spec fn stop_distance(self) -> nat {
        match self {
            LoopPhase::Stopped { .. } => 0,
            LoopPhase::PollHead | LoopPhase::PollAfterDrop | LoopPhase::PollBeforeWrite
            | LoopPhase::PollAfterWrite => 1,
            LoopPhase::Backoff | LoopPhase::Pacing { .. } | LoopPhase::Writing
            | LoopPhase::Composing => 2,
            LoopPhase::Resizing => 3,
            LoopPhase::Reading => 4,
        }
    }
}

impl CaptureModel {
    /// The state a loop starts in.
    pub open spec fn init(config: CaptureConfig, started_at: u64) -> CaptureModel {
        CaptureModel {
            config,
            interval: config.interval_spec() as u64,
            phase: LoopPhase::PollHead,
            valid_frames: 0,
            frames_written: 0,
            started_at,
            iteration_started: started_at,
            now: started_at,
            primary: FrameShape { cols: 0, rows: 0 },
            secondary: FrameShape { cols: 0, rows: 0 },
            composite: FrameShape { cols: 0, rows: 0 },
        }
    }

    /// What holds of every state a loop can reach.
    pub open spec fn wf(self) -> bool {
        &&& self.config.wf()
        &&& self.interval == self.config.interval_spec()
        &&& self.frames_written <= self.valid_frames <= self.frames_written + 1
        &&& self.phase.frame_in_hand() ==> self.valid_frames == self.frames_written + 1
        &&& !self.phase.frame_in_hand() && !(self.phase is Stopped) ==> self.valid_frames
            == self.frames_written
        &&& self.phase is Composing ==> self.primary == self.config.target_spec()
            && self.secondary == self.config.target_spec()
        &&& self.phase is PollBeforeWrite || self.phase is Writing ==> self.composite
            == self.config.composite_spec()
    }

    /// The action the loop is waiting on.
    pub open spec fn pending(self) -> LoopAction {
        match self.phase {
            LoopPhase::PollHead | LoopPhase::PollAfterDrop | LoopPhase::PollBeforeWrite
            | LoopPhase::PollAfterWrite => LoopAction::PollCancellation,
            LoopPhase::Reading => LoopAction::ReadFrames,
            LoopPhase::Backoff => LoopAction::Pause { nanos: RETRY_PAUSE_NANOS },
            LoopPhase::Resizing => LoopAction::ResizeBoth { shape: self.config.target_spec() },
            LoopPhase::Composing => LoopAction::Compose,
            LoopPhase::Writing => LoopAction::WriteComposite { shape: self.composite },
            LoopPhase::Pacing { nanos } => LoopAction::Pause { nanos },
            LoopPhase::Stopped { exit } => LoopAction::Stop { exit },
        }
    }

    /// Whether `reply` is the kind of reply the pending action calls for.
    pub open spec fn answers(self, reply: Reply) -> bool {
        match self.phase {
            LoopPhase::PollHead | LoopPhase::PollAfterDrop | LoopPhase::PollBeforeWrite
            | LoopPhase::PollAfterWrite => reply is Flag,
            LoopPhase::Reading => reply is Frames,
            LoopPhase::Backoff | LoopPhase::Resizing | LoopPhase::Composing | LoopPhase::Writing
            | LoopPhase::Pacing { .. } => reply is Completed,
            LoopPhase::Stopped { .. } => false,
        }
    }

    /// The loop after a set stop flag was seen at `at`.
    pub open spec fn cancelled(self, at: u64) -> CaptureModel {
        CaptureModel { phase: LoopPhase::Stopped { exit: LoopExit::Cancelled }, now: at, ..self }
    }

    /// The loop after a fatal failure at `at`.
    pub open spec fn failed(self, exit: LoopExit, at: u64) -> CaptureModel {
        CaptureModel { phase: LoopPhase::Stopped { exit }, now: at, ..self }
    }

    /// The loop in phase `phase` at `at`, all else unchanged.
    pub open spec fn moved(self, phase: LoopPhase, at: u64) -> CaptureModel {
        CaptureModel { phase, now: at, ..self }
    }

    /// The loop after both cameras were read.
    pub open spec fn after_read(self, primary: CameraRead, secondary: CameraRead, at: u64)
        -> CaptureModel {
        if !primary.usable_spec() || !secondary.usable_spec() {
            self.moved(LoopPhase::PollAfterDrop, at)
        } else if self.config.needs_resize_spec(primary.shape, secondary.shape) {
            CaptureModel {
                phase: LoopPhase::Resizing,
                now: at,
                primary: primary.shape,
                secondary: secondary.shape,
                ..self
            }
        } else {
            CaptureModel {
                phase: LoopPhase::Composing,
                now: at,
                primary: primary.shape,
                secondary: secondary.shape,
                valid_frames: self.valid_frames + 1,
                ..self
            }
        }
    }

    /// The loop after the frames were joined, or failed to.
    pub open spec fn after_compose(self, ok: bool, at: u64) -> CaptureModel {
        match side_by_side_spec(self.secondary, self.primary) {
            Some(joined) if ok => CaptureModel {
                phase: LoopPhase::PollBeforeWrite,
                now: at,
                composite: joined,
                ..self
            },
            _ => self.failed(LoopExit::ComposeFailed, at),
        }
    }

    /// The loop after the poll that follows a write found the flag unset.
    pub open spec fn after_iteration(self, at: u64) -> CaptureModel {
        match remaining_pause_spec(self.interval, elapsed_between_spec(self.iteration_started, at)) {
            Some(nanos) => self.moved(LoopPhase::Pacing { nanos }, at),
            None => self.moved(LoopPhase::PollHead, at),
        }
    }

    /// The transition function: the loop after `event`. A reply that does
    /// not answer the pending action changes nothing.
    pub open spec fn next(self, event: Event) -> CaptureModel {
        let at = event.at_nanos;
        match (self.phase, event.reply) {
            (LoopPhase::PollHead, Reply::Flag { set }) => if set {
                self.cancelled(at)
            } else {
                CaptureModel { phase: LoopPhase::Reading, now: at, iteration_started: at, ..self }
            },
            (LoopPhase::Reading, Reply::Frames { primary, secondary }) => self.after_read(
                primary,
                secondary,
                at,
            ),
            (LoopPhase::PollAfterDrop, Reply::Flag { set }) => if set {
                self.cancelled(at)
            } else {
                self.moved(LoopPhase::Backoff, at)
            },
            (LoopPhase::Backoff, Reply::Completed { .. }) => self.moved(LoopPhase::PollHead, at),
            (LoopPhase::Resizing, Reply::Completed { ok }) => if ok {
                CaptureModel {
                    phase: LoopPhase::Composing,
                    now: at,
                    primary: self.config.target_spec(),
                    secondary: self.config.target_spec(),
                    valid_frames: self.valid_frames + 1,
                    ..self
                }
            } else {
                self.failed(LoopExit::ResizeFailed, at)
            },
            (LoopPhase::Composing, Reply::Completed { ok }) => self.after_compose(ok, at),
            (LoopPhase::PollBeforeWrite, Reply::Flag { set }) => if set {
                self.cancelled(at)
            } else {
                self.moved(LoopPhase::Writing, at)
            },
            (LoopPhase::Writing, Reply::Completed { ok }) => if ok {
                CaptureModel {
                    phase: LoopPhase::PollAfterWrite,
                    now: at,
                    frames_written: self.frames_written + 1,
                    ..self
                }
            } else {
                self.failed(LoopExit::WriteFailed, at)
            },
            (LoopPhase::PollAfterWrite, Reply::Flag { set }) => if set {
                self.cancelled(at)
            } else {
                self.after_iteration(at)
            },
            (LoopPhase::Pacing { .. }, Reply::Completed { .. }) => self.moved(
                LoopPhase::PollHead,
                at,
            ),
            _ => self,
        }
    }

    /// The loop after all of `events`, taken in order.
    pub open spec fn run(self, events: Seq<Event>) -> CaptureModel
        decreases events.len(),
    {
        if events.len() == 0 {
            self
        } else {
            self.run(events.drop_last()).next(events.last())
        }
    }

    /// Wall-clock time the loop has been running, in nanoseconds.
    pub open spec fn elapsed(self) -> u64 {
        elapsed_between_spec(self.started_at, self.now)
    }

    /// Every event of `events` answers the action then pending, and every
    /// poll among them finds the stop flag set.
    pub open spec fn stop_requested_throughout(self, events: Seq<Event>) -> bool
        decreases events.len(),
    {
        if events.len() == 0 {
            true
        } else {
            let before = self.run(events.drop_last());
            &&& self.stop_requested_throughout(events.drop_last())
            &&& before.phase is Stopped || before.answers(events.last().reply)
            &&& events.last().reply matches Reply::Flag { set } ==> set
        }
    }
}

impl View for CaptureLoop {
    type V = CaptureModel;

    open spec fn view(&self) -> CaptureModel {
        CaptureModel {
            config: self.config,
            interval: self.interval,
            phase: self.phase,
            valid_frames: self.valid_frames as nat,
            frames_written: self.frames_written as nat,
            started_at: self.started_at,
            iteration_started: self.iteration_started,
            now: self.now,
            primary: self.primary,
            secondary: self.secondary,
            composite: self.composite,
        }
    }
}

impl CaptureLoop {
    /// Both counters can still grow by one.
    pub open spec fn has_room_spec(self) -> bool {
        self.valid_frames < u64::MAX && self.frames_written < u64::MAX
    }

    /// A loop about to begin its first iteration, created at clock reading
    /// `started_at`.
    pub fn new(config: CaptureConfig, started_at: u64) -> (capture: CaptureLoop)
        requires
            config.wf(),
        ensures
            capture@ == CaptureModel::init(config, started_at),
            capture@.wf(),
            capture.has_room_spec(),
    {
        CaptureLoop {
            config,
            interval: config.frame_interval(),
            phase: LoopPhase::PollHead,
            valid_frames: 0,
            frames_written: 0,
            started_at,
            iteration_started: started_at,
            now: started_at,
            primary: FrameShape { cols: 0, rows: 0 },
            secondary: FrameShape { cols: 0, rows: 0 },
            composite: FrameShape { cols: 0, rows: 0 },
        }
    }

    /// Whether both counters can still grow by one, as `step` needs.
    pub fn has_room(&self) -> (room: bool)
        ensures
            room == self.has_room_spec(),
    {
        self.valid_frames < u64::MAX && self.frames_written < u64::MAX
    }

    /// The action the loop is waiting on.
    pub fn pending(&self) -> (action: LoopAction)
        ensures
            action == self@.pending(),
    {
        match self.phase {
            LoopPhase::PollHead | LoopPhase::PollAfterDrop | LoopPhase::PollBeforeWrite
            | LoopPhase::PollAfterWrite => LoopAction::PollCancellation,
            LoopPhase::Reading => LoopAction::ReadFrames,
            LoopPhase::Backoff => LoopAction::Pause { nanos: RETRY_PAUSE_NANOS },
            LoopPhase::Resizing => LoopAction::ResizeBoth { shape: self.config.target() },
            LoopPhase::Composing => LoopAction::Compose,
            LoopPhase::Writing => LoopAction::WriteComposite { shape: self.composite },
            LoopPhase::Pacing { nanos } => LoopAction::Pause { nanos },
            LoopPhase::Stopped { exit } => LoopAction::Stop { exit },
        }
    }

    /// Why the loop stopped, if it has.
    pub fn exit(&self) -> (exit: Option<LoopExit>)
        ensures
            exit == (match self@.phase {
                LoopPhase::Stopped { exit } => Some(exit),
                _ => None,
            }),
    {
        match self.phase {
            LoopPhase::Stopped { exit } => Some(exit),
            _ => None,
        }
    }

    /// Wall-clock time from the creation of the loop to the latest reply.
    pub fn elapsed_nanos(&self) -> (nanos: u64)
        ensures
            nanos == self@.elapsed(),
    {
        elapsed_between(self.started_at, self.now)
    }

    /// The loop after `event`.
    fn advance(self, event: Event) -> (after: CaptureLoop)
        requires
            self.has_room_spec(),
        ensures
            after@ == self@.next(event),
    {
        let at: u64 = event.at_nanos;
        match (self.phase, event.reply) {
            (LoopPhase::PollHead, Reply::Flag { set }) => {
                if set {
                    CaptureLoop {
                        phase: LoopPhase::Stopped { exit: LoopExit::Cancelled },
                        now: at,
                        ..self
                    }
                } else {
                    CaptureLoop {
                        phase: LoopPhase::Reading,
                        now: at,
                        iteration_started: at,
                        ..self
                    }
                }
            },
            (LoopPhase::Reading, Reply::Frames { primary, secondary }) => {
                if !primary.usable() || !secondary.usable() {
                    CaptureLoop { phase: LoopPhase::PollAfterDrop, now: at, ..self }
                } else if self.config.needs_resize(primary.shape, secondary.shape) {
                    CaptureLoop {
                        phase: LoopPhase::Resizing,
                        now: at,
                        primary: primary.shape,
                        secondary: secondary.shape,
                        ..self
                    }
                } else {
                    CaptureLoop {
                        phase: LoopPhase::Composing,
                        now: at,
                        primary: primary.shape,
                        secondary: secondary.shape,
                        valid_frames: self.valid_frames + 1,
                        ..self
                    }
                }
            },
            (LoopPhase::PollAfterDrop, Reply::Flag { set }) => {
                if set {
                    CaptureLoop {
                        phase: LoopPhase::Stopped { exit: LoopExit::Cancelled },
                        now: at,
                        ..self
                    }
                } else {
                    CaptureLoop { phase: LoopPhase::Backoff, now: at, ..self }
                }
            },
            (LoopPhase::Backoff, Reply::Completed { .. }) => {
                CaptureLoop { phase: LoopPhase::PollHead, now: at, ..self }
            },
            (LoopPhase::Resizing, Reply::Completed { ok }) => {
                if ok {
                    CaptureLoop {
                        phase: LoopPhase::Composing,
                        now: at,
                        primary: self.config.target(),
                        secondary: self.config.target(),
                        valid_frames: self.valid_frames + 1,
                        ..self
                    }
                } else {
                    CaptureLoop {
                        phase: LoopPhase::Stopped { exit: LoopExit::ResizeFailed },
                        now: at,
                        ..self
                    }
                }
            },
            (LoopPhase::Composing, Reply::Completed { ok }) => {
                match side_by_side(self.secondary, self.primary) {
                    Some(joined) if ok => CaptureLoop {
                        phase: LoopPhase::PollBeforeWrite,
                        now: at,
                        composite: joined,
                        ..self
                    },
                    _ => CaptureLoop {
                        phase: LoopPhase::Stopped { exit: LoopExit::ComposeFailed },
                        now: at,
                        ..self
                    },
                }
            },
            (LoopPhase::PollBeforeWrite, Reply::Flag { set }) => {
                if set {
                    CaptureLoop {
                        phase: LoopPhase::Stopped { exit: LoopExit::Cancelled },
                        now: at,
                        ..self
                    }
                } else {
                    CaptureLoop { phase: LoopPhase::Writing, now: at, ..self }
                }
            },
            (LoopPhase::Writing, Reply::Completed { ok }) => {
                if ok {
                    CaptureLoop {
                        phase: LoopPhase::PollAfterWrite,
                        now: at,
                        frames_written: self.frames_written + 1,
                        ..self
                    }
                } else {
                    CaptureLoop {
                        phase: LoopPhase::Stopped { exit: LoopExit::WriteFailed },
                        now: at,
                        ..self
                    }
                }
            },
            (LoopPhase::PollAfterWrite, Reply::Flag { set }) => {
                if set {
                    CaptureLoop {
                        phase: LoopPhase::Stopped { exit: LoopExit::Cancelled },
                        now: at,
                        ..self
                    }
                } else {
                    let spent: u64 = elapsed_between(self.iteration_started, at);
                    match remaining_pause(self.interval, spent) {
                        Some(nanos) => CaptureLoop {
                            phase: LoopPhase::Pacing { nanos },
                            now: at,
                            ..self
                        },
                        None => CaptureLoop { phase: LoopPhase::PollHead, now: at, ..self },
                    }
                }
            },
            (LoopPhase::Pacing { .. }, Reply::Completed { .. }) => {
                CaptureLoop { phase: LoopPhase::PollHead, now: at, ..self }
            },
            _ => self,
        }
    }

    /// Takes the reply to the pending action and returns the next action.
    /// A reply of the wrong kind is ignored: the same action comes back.
    pub fn step(&mut self, event: Event) -> (action: LoopAction)
        requires
            old(self).has_room_spec(),
        ensures
            final(self)@ == old(self)@.next(event),
            action == final(self)@.pending(),
            old(self)@.wf() ==> final(self)@.wf(),
    {
        proof {
            if self@.wf() {
                lemma_next_keeps_wf(self@, event);
            }
        }
        let after = self.advance(event);
        *self = after;
        self.pending()
    }
}

/// One transition keeps a well-formed loop well formed.
pub proof fn lemma_next_keeps_wf(s: CaptureModel, event: Event)
    requires
        s.wf(),
    ensures
        s.next(event).wf(),
{
    crate::frame::lemma_joined_targets(s.config);
}

} // verus!
