//! One recording session from the first directory lookup to the final file.
//!
//! The session strings the set-up, the capture loop, the release of the
//! temporary writer, the re-encoder and the clean-up into one state machine.
//! The caller performs [`Action`]s and feeds back [`Event`]s until the
//! session asks to finish.

use vstd::prelude::*;
use crate::capture::{CaptureLoop, CaptureModel, LoopAction, LoopExit, LoopPhase};
use crate::error::RecordingError;
use crate::frame::{CaptureConfig, FrameShape, PRIMARY_CAMERA, SECONDARY_CAMERA};
use crate::protocol::{Event, Reply};
use crate::reencode::{ReencodeAction, ReencodeModel, ReencodePhase, Reencoder};
use crate::timing::{observed_rate, observed_rate_spec, FrameRate, SETTLE_NANOS};

verus! {

/// One of the two cameras.
#[derive(Clone, Copy, Debug, PartialEq, Eq, Structural)]
pub enum Camera {
    /// The camera whose picture goes on the right.
    Primary,
    /// The camera whose picture goes on the left.
    Secondary,
}

/// Where the session stands: each stage but the last waits for one reply.
#[derive(Clone, Copy, Debug, PartialEq, Eq, Structural)]
pub enum Stage {
    /// Waiting for the save directory to exist.
    EnsuringDirectory,
    /// Waiting for a camera to be opened.
    OpeningCamera { camera: Camera },
    /// Waiting for a camera to take its size and rate.
    ConfiguringCamera { camera: Camera },
    /// Waiting to hear whether both cameras are open.
    VerifyingCameras,
    /// Letting the cameras settle.
    Settling,
    /// Waiting for the writer of the temporary file to be created.
    OpeningWriter,
    /// Waiting to hear whether the writer of the temporary file is open.
    VerifyingWriter,
    /// The capture loop is running.
    Capturing,
    /// Waiting for the writer of the temporary file to be released.
    ReleasingWriter,
    /// The re-encoder is running.
    Reencoding,
    /// Waiting for the temporary file to be removed; `saved` tells whether
    /// a final file was written.
    RemovingTemporary { saved: bool },
    /// The session is over; `error` is `None` when the final file is saved.
    Done { error: Option<RecordingError> },
}

/// What the caller is asked to do.
#[derive(Clone, Copy, Debug, PartialEq, Eq, Structural)]
pub enum Action {
    /// Create the save directory unless it exists; reply with `Completed`.
    EnsureDirectory,
    /// Open this camera; reply with `Completed`.
    OpenCamera { camera: Camera },
    /// Set this camera's frame size and rate; reply with `Completed`.
    ConfigureCamera { camera: Camera, shape: FrameShape, fps: u32 },
    /// Ask both cameras whether they are open; reply with `Completed`,
    /// `ok` only if both are.
    VerifyCameras,
    /// Sleep for `nanos` nanoseconds; reply with `Completed`.
    Pause { nanos: u64 },
    /// Create the writer of the temporary file with this rate and frame
    /// size; reply with `Completed`.
    OpenTemporaryWriter { rate: FrameRate, shape: FrameShape },
    /// Ask the writer of the temporary file whether it is open; reply with
    /// `Completed`.
    VerifyTemporaryWriter,
    /// Do what the capture loop asks.
    Capture { capture: LoopAction },
    /// Release the writer of the temporary file; reply with `Completed`.
    ReleaseTemporaryWriter,
    /// Do what the re-encoder asks.
    Reencode { reencode: ReencodeAction },
    /// Remove the temporary file; reply with `Completed`.
    RemoveTemporaryFile,
    /// Nothing more: report the final file, or this failure.
    Finish { error: Option<RecordingError> },
}

/// The session as a mathematical value.
pub struct SessionModel {
    pub config: CaptureConfig,
    pub stage: Stage,
    pub capture: CaptureModel,
    pub reencode: ReencodeModel,
    pub writer_held: bool,
}

/// The session as it runs.
#[derive(Clone, Copy, Debug, PartialEq, Eq, Structural)]
pub struct Session {
    /// Target size and rate.
    pub config: CaptureConfig,
    /// Where the session stands.
    pub stage: Stage,
    /// The capture loop; meaningful from the capturing stage on.
    pub capture: CaptureLoop,
    /// The re-encoder; meaningful from the re-encoding stage on.
    pub reencode: Reencoder,
    /// Whether the writer of the temporary file is open and not yet released.
    pub writer_held: bool,
}

impl Camera {
    /// The device index of the camera.
    pub open spec fn index_spec(self) -> u8 {
        match self {
            Camera::Primary => PRIMARY_CAMERA,
            Camera::Secondary => SECONDARY_CAMERA,
        }
    }

    /// The device index of the camera.
    pub fn index(&self) -> (index: u8)
        ensures
            index == self.index_spec(),
    {
        match self {
            Camera::Primary => PRIMARY_CAMERA,
            Camera::Secondary => SECONDARY_CAMERA,
        }
    }
}

impl LoopExit {
    /// The failure that ended the loop, if it was one.
    pub open spec fn error_spec(self) -> Option<RecordingError> {
        match self {
            LoopExit::Cancelled => None,
            LoopExit::ResizeFailed => Some(RecordingError::ResizeFrames),
            LoopExit::ComposeFailed => Some(RecordingError::ComposeFrames),
            LoopExit::WriteFailed => Some(RecordingError::WriteFrame),
        }
    }

    /// The failure that ended the loop, if it was one.
    pub fn error(&self) -> (error: Option<RecordingError>)
        ensures
            error == self.error_spec(),
    {
        match self {
            LoopExit::Cancelled => None,
            LoopExit::ResizeFailed => Some(RecordingError::ResizeFrames),
            LoopExit::ComposeFailed => Some(RecordingError::ComposeFrames),
            LoopExit::WriteFailed => Some(RecordingError::WriteFrame),
        }
    }
}

impl SessionModel {
    /// The state a session starts in.
    pub open spec fn init(config: CaptureConfig) -> SessionModel {
        SessionModel {
            config,
            stage: Stage::EnsuringDirectory,
            capture: CaptureModel::init(config, 0),
            reencode: ReencodeModel::init(config.requested_rate_spec()),
            writer_held: false,
        }
    }

    /// What holds of every state a session can reach.
    pub open spec fn wf(self) -> bool {
        &&& self.config.wf()
        &&& self.writer_held <==> (self.stage is Capturing || self.stage is ReleasingWriter)
        &&& self.stage is Capturing ==> self.capture.wf() && !(self.capture.phase is Stopped)
            && self.capture.config == self.config
        &&& self.stage is ReleasingWriter ==> self.capture.phase is Stopped
        &&& self.stage is Reencoding ==> self.reencode.wf() && !(self.reencode.phase is Finished)
            && self.capture.frames_written > 0 && self.reencode.rate == self.observed_rate()
        &&& !(self.stage is Reencoding) ==> !self.reencode.output_held
        &&& self.stage matches Stage::RemovingTemporary { saved } ==> (saved
            <==> self.capture.frames_written > 0)
        &&& self.stage matches Stage::Done { error: None } ==> self.capture.frames_written > 0
    }

    /// The rate the finished recording is to be stamped with: frames
    /// written over time elapsed, as the capture loop counted them.
    pub open spec fn observed_rate(self) -> FrameRate {
        observed_rate_spec(
            self.capture.frames_written,
            self.capture.elapsed() as nat,
            self.config.requested_rate_spec(),
        )
    }

    /// The action the session is waiting on.
    pub open spec fn pending(self) -> Action {
        match self.stage {
            Stage::EnsuringDirectory => Action::EnsureDirectory,
            Stage::OpeningCamera { camera } => Action::OpenCamera { camera },
            Stage::ConfiguringCamera { camera } => Action::ConfigureCamera {
                camera,
                shape: self.config.target_spec(),
                fps: self.config.fps,
            },
            Stage::VerifyingCameras => Action::VerifyCameras,
            Stage::Settling => Action::Pause { nanos: SETTLE_NANOS },
            Stage::OpeningWriter => Action::OpenTemporaryWriter {
                rate: self.config.requested_rate_spec(),
                shape: self.config.composite_spec(),
            },
            Stage::VerifyingWriter => Action::VerifyTemporaryWriter,
            Stage::Capturing => Action::Capture { capture: self.capture.pending() },
            Stage::ReleasingWriter => Action::ReleaseTemporaryWriter,
            Stage::Reencoding => Action::Reencode { reencode: self.reencode.pending() },
            Stage::RemovingTemporary { .. } => Action::RemoveTemporaryFile,
            Stage::Done { error } => Action::Finish { error },
        }
    }

    /// The session in stage `stage`, all else unchanged.
    pub open spec fn moved(self, stage: Stage) -> SessionModel {
        SessionModel { stage, ..self }
    }

    /// The session over, with `error`.
    pub open spec fn failed(self, error: RecordingError) -> SessionModel {
        SessionModel { stage: Stage::Done { error: Some(error) }, ..self }
    }

    /// A set-up step: on to `stage` if it succeeded, over with `error` if not.
    pub open spec fn proceed(self, ok: bool, stage: Stage, error: RecordingError) -> SessionModel {
        if ok {
            self.moved(stage)
        } else {
            self.failed(error)
        }
    }

    /// The session after a reply during set-up.
    pub open spec fn next_setup(self, ok: bool, at: u64) -> SessionModel {
        match self.stage {
            Stage::EnsuringDirectory => self.proceed(
                ok,
                Stage::OpeningCamera { camera: Camera::Primary },
                RecordingError::CreateDirectory,
            ),
            Stage::OpeningCamera { camera: Camera::Primary } => self.proceed(
                ok,
                Stage::OpeningCamera { camera: Camera::Secondary },
                RecordingError::OpenCamera { index: PRIMARY_CAMERA },
            ),
            Stage::OpeningCamera { camera: Camera::Secondary } => self.proceed(
                ok,
                Stage::ConfiguringCamera { camera: Camera::Primary },
                RecordingError::OpenCamera { index: SECONDARY_CAMERA },
            ),
            Stage::ConfiguringCamera { camera: Camera::Primary } => self.proceed(
                ok,
                Stage::ConfiguringCamera { camera: Camera::Secondary },
                RecordingError::ConfigureCamera { index: PRIMARY_CAMERA },
            ),
            Stage::ConfiguringCamera { camera: Camera::Secondary } => self.proceed(
                ok,
                Stage::VerifyingCameras,
                RecordingError::ConfigureCamera { index: SECONDARY_CAMERA },
            ),
            Stage::VerifyingCameras => self.proceed(
                ok,
                Stage::Settling,
                RecordingError::CamerasNotOpened,
            ),
            Stage::Settling => self.moved(Stage::OpeningWriter),
            Stage::OpeningWriter => self.proceed(
                ok,
                Stage::VerifyingWriter,
                RecordingError::OpenTemporaryWriter,
            ),
            Stage::VerifyingWriter => if ok {
                SessionModel {
                    stage: Stage::Capturing,
                    capture: CaptureModel::init(self.config, at),
                    writer_held: true,
                    ..self
                }
            } else {
                self.failed(RecordingError::TemporaryWriterNotOpened)
            },
            _ => self,
        }
    }

    /// The session after a reply to the capture loop.
    pub open spec fn next_capture(self, event: Event) -> SessionModel {
        let capture = self.capture.next(event);
        SessionModel {
            stage: if capture.phase is Stopped {
                Stage::ReleasingWriter
            } else {
                Stage::Capturing
            },
            capture,
            ..self
        }
    }

    /// The session once the writer of the temporary file is released: over
    /// if the loop failed, on to the re-encoder if frames were written, on
    /// to the clean-up of an empty session otherwise.
    pub open spec fn next_released(self) -> SessionModel {
        let released = SessionModel { writer_held: false, ..self };
        match self.capture.phase {
            LoopPhase::Stopped { exit } => match exit.error_spec() {
                Some(error) => released.failed(error),
                None => if self.capture.frames_written > 0 {
                    SessionModel {
                        stage: Stage::Reencoding,
                        reencode: ReencodeModel::init(self.observed_rate()),
                        ..released
                    }
                } else {
                    released.moved(Stage::RemovingTemporary { saved: false })
                },
            },
            _ => released.moved(Stage::RemovingTemporary { saved: false }),
        }
    }

    /// The session after a reply to the re-encoder.
    pub open spec fn next_reencode(self, event: Event) -> SessionModel {
        let reencode = self.reencode.next(event);
        SessionModel {
            stage: match reencode.phase {
                ReencodePhase::Finished { error: None } => Stage::RemovingTemporary { saved: true },
                ReencodePhase::Finished { error: Some(error) } => Stage::Done {
                    error: Some(error),
                },
                _ => Stage::Reencoding,
            },
            reencode,
            ..self
        }
    }

    /// The session once the removal of the temporary file was tried.
    pub open spec fn next_removed(self, saved: bool, ok: bool) -> SessionModel {
        if !saved {
            self.failed(RecordingError::NoFramesRecorded)
        } else if ok {
            self.moved(Stage::Done { error: None })
        } else {
            self.failed(RecordingError::RemoveTemporaryFile)
        }
    }

    /// The transition function: the session after `event`. A reply that
    /// does not answer the pending action changes nothing.
    pub open spec fn next(self, event: Event) -> SessionModel {
        match (self.stage, event.reply) {
            (Stage::Capturing, _) => self.next_capture(event),
            (Stage::Reencoding, _) => self.next_reencode(event),
            (Stage::Done { .. }, _) => self,
            (Stage::ReleasingWriter, Reply::Completed { .. }) => self.next_released(),
            (Stage::RemovingTemporary { saved }, Reply::Completed { ok }) => self.next_removed(
                saved,
                ok,
            ),
            (_, Reply::Completed { ok }) => self.next_setup(ok, event.at_nanos),
            _ => self,
        }
    }

    /// The session after all of `events`, taken in order.
    pub open spec fn run(self, events: Seq<Event>) -> SessionModel
        decreases events.len(),
    {
        if events.len() == 0 {
            self
        } else {
            self.run(events.drop_last()).next(events.last())
        }
    }
}

impl View for Session {
    type V = SessionModel;

    open spec fn view(&self) -> SessionModel {
        SessionModel {
            config: self.config,
            stage: self.stage,
            capture: self.capture@,
            reencode: self.reencode@,
            writer_held: self.writer_held,
        }
    }
}

impl Session {
    /// Every counter of the session can still grow by one.
    pub open spec fn has_room_spec(self) -> bool {
        self.capture.has_room_spec() && self.reencode.has_room_spec()
    }

    /// A session about to look for its save directory.
    pub fn new(config: CaptureConfig) -> (session: Session)
        requires
            config.wf(),
        ensures
            session@ == SessionModel::init(config),
            session.has_room_spec(),
    {
        Session {
            config,
            stage: Stage::EnsuringDirectory,
            capture: CaptureLoop::new(config, 0),
            reencode: Reencoder::new(config.requested_rate()),
            writer_held: false,
        }
    }

    /// Whether every counter can still grow by one, as `step` needs.
    pub fn has_room(&self) -> (room: bool)
        ensures
            room == self.has_room_spec(),
    {
        self.capture.has_room() && self.reencode.has_room()
    }

    /// The action the session is waiting on.
    pub fn pending(&self) -> (action: Action)
        requires
            self.config.wf(),
        ensures
            action == self@.pending(),
    {
        match self.stage {
            Stage::EnsuringDirectory => Action::EnsureDirectory,
            Stage::OpeningCamera { camera } => Action::OpenCamera { camera },
            Stage::ConfiguringCamera { camera } => Action::ConfigureCamera {
                camera,
                shape: self.config.target(),
                fps: self.config.fps,
            },
            Stage::VerifyingCameras => Action::VerifyCameras,
            Stage::Settling => Action::Pause { nanos: SETTLE_NANOS },
            Stage::OpeningWriter => Action::OpenTemporaryWriter {
                rate: self.config.requested_rate(),
                shape: self.config.composite(),
            },
            Stage::VerifyingWriter => Action::VerifyTemporaryWriter,
            Stage::Capturing => Action::Capture { capture: self.capture.pending() },
            Stage::ReleasingWriter => Action::ReleaseTemporaryWriter,
            Stage::Reencoding => Action::Reencode { reencode: self.reencode.pending() },
            Stage::RemovingTemporary { .. } => Action::RemoveTemporaryFile,
            Stage::Done { error } => Action::Finish { error },
        }
    }

    /// How the session ended, if it has: `Ok` when the final file is saved.
    pub fn outcome(&self) -> (outcome: Option<Result<(), RecordingError>>)
        ensures
            outcome == (match self@.stage {
                Stage::Done { error: None } => Some(Ok::<(), RecordingError>(())),
                Stage::Done { error: Some(e) } => Some(Err::<(), RecordingError>(e)),
                _ => None,
            }),
    {
        match self.stage {
            Stage::Done { error: None } => Some(Ok(())),
            Stage::Done { error: Some(e) } => Some(Err(e)),
            _ => None,
        }
    }

    /// Joined frames written to the temporary file so far.
    pub fn frames_written(&self) -> (frames: u64)
        ensures
            frames == self@.capture.frames_written,
    {
        self.capture.frames_written
    }

    /// The rate the finished recording is to be stamped with.
    pub fn observed_rate(&self) -> (rate: FrameRate)
        ensures
            rate == self@.observed_rate(),
    {
        observed_rate(
            self.capture.frames_written,
            self.capture.elapsed_nanos(),
            self.config.requested_rate(),
        )
    }

    /// The session over, with `error`.
    fn fail(self, error: RecordingError) -> (after: Session)
        ensures
            after@ == self@.failed(error),
    {
        Session { stage: Stage::Done { error: Some(error) }, ..self }
    }

    /// A set-up step: on to `stage` if it succeeded, over with `error` if not.
    fn proceed(self, ok: bool, stage: Stage, error: RecordingError) -> (after: Session)
        ensures
            after@ == self@.proceed(ok, stage, error),
    {
        if ok {
            Session { stage, ..self }
        } else {
            self.fail(error)
        }
    }

    /// The session after a reply during set-up.
    fn advance_setup(self, ok: bool, at: u64) -> (after: Session)
        requires
            self.config.wf(),
            self.has_room_spec(),
        ensures
            after@ == self@.next_setup(ok, at),
            after.has_room_spec(),
    {
        match self.stage {
            Stage::EnsuringDirectory => self.proceed(
                ok,
                Stage::OpeningCamera { camera: Camera::Primary },
                RecordingError::CreateDirectory,
            ),
            Stage::OpeningCamera { camera: Camera::Primary } => self.proceed(
                ok,
                Stage::OpeningCamera { camera: Camera::Secondary },
                RecordingError::OpenCamera { index: PRIMARY_CAMERA },
            ),
            Stage::OpeningCamera { camera: Camera::Secondary } => self.proceed(
                ok,
                Stage::ConfiguringCamera { camera: Camera::Primary },
                RecordingError::OpenCamera { index: SECONDARY_CAMERA },
            ),
            Stage::ConfiguringCamera { camera: Camera::Primary } => self.proceed(
                ok,
                Stage::ConfiguringCamera { camera: Camera::Secondary },
                RecordingError::ConfigureCamera { index: PRIMARY_CAMERA },
            ),
            Stage::ConfiguringCamera { camera: Camera::Secondary } => self.proceed(
                ok,
                Stage::VerifyingCameras,
                RecordingError::ConfigureCamera { index: SECONDARY_CAMERA },
            ),
            Stage::VerifyingCameras => self.proceed(
                ok,
                Stage::Settling,
                RecordingError::CamerasNotOpened,
            ),
            Stage::Settling => Session { stage: Stage::OpeningWriter, ..self },
            Stage::OpeningWriter => self.proceed(
                ok,
                Stage::VerifyingWriter,
                RecordingError::OpenTemporaryWriter,
            ),
            Stage::VerifyingWriter => {
                if ok {
                    Session {
                        stage: Stage::Capturing,
                        capture: CaptureLoop::new(self.config, at),
                        writer_held: true,
                        ..self
                    }
                } else {
                    self.fail(RecordingError::TemporaryWriterNotOpened)
                }
            },
            _ => self,
        }
    }

    /// The session once the writer of the temporary file is released.
    fn advance_released(self) -> (after: Session)
        ensures
            after@ == self@.next_released(),
    {
        let released = Session { writer_held: false, ..self };
        match self.capture.phase {
            LoopPhase::Stopped { exit } => match exit.error() {
                Some(error) => released.fail(error),
                None => {
                    if self.capture.frames_written > 0 {
                        Session {
                            stage: Stage::Reencoding,
                            reencode: Reencoder::new(self.observed_rate()),
                            ..released
                        }
                    } else {
                        Session { stage: Stage::RemovingTemporary { saved: false }, ..released }
                    }
                },
            },
            _ => Session { stage: Stage::RemovingTemporary { saved: false }, ..released },
        }
    }

    /// The session after `event`.
    fn advance(self, event: Event) -> (after: Session)
        requires
            self.config.wf(),
            self.has_room_spec(),
        ensures
            after@ == self@.next(event),
    {
        match (self.stage, event.reply) {
            (Stage::Capturing, _) => {
                let mut capture = self.capture;
                capture.step(event);
                let stage = match capture.phase {
                    LoopPhase::Stopped { .. } => Stage::ReleasingWriter,
                    _ => Stage::Capturing,
                };
                Session { stage, capture, ..self }
            },
            (Stage::Reencoding, _) => {
                let mut reencode = self.reencode;
                reencode.step(event);
                let stage = match reencode.phase {
                    ReencodePhase::Finished { error: None } => Stage::RemovingTemporary {
                        saved: true,
                    },
                    ReencodePhase::Finished { error: Some(error) } => Stage::Done {
                        error: Some(error),
                    },
                    _ => Stage::Reencoding,
                };
                Session { stage, reencode, ..self }
            },
            (Stage::Done { .. }, _) => self,
            (Stage::ReleasingWriter, Reply::Completed { .. }) => self.advance_released(),
            (Stage::RemovingTemporary { saved }, Reply::Completed { ok }) => {
                if !saved {
                    self.fail(RecordingError::NoFramesRecorded)
                } else if ok {
                    Session { stage: Stage::Done { error: None }, ..self }
                } else {
                    self.fail(RecordingError::RemoveTemporaryFile)
                }
            },
            (_, Reply::Completed { ok }) => self.advance_setup(ok, event.at_nanos),
            _ => self,
        }
    }

    /// Takes the reply to the pending action and returns the next action.
    /// A reply of the wrong kind is ignored: the same action comes back.
    pub fn step(&mut self, event: Event) -> (action: Action)
        requires
            old(self).config.wf(),
            old(self).has_room_spec(),
        ensures
            final(self)@ == old(self)@.next(event),
            action == final(self)@.pending(),
            final(self).config == old(self).config,
            old(self)@.wf() ==> final(self)@.wf(),
    {
        proof {
            if self@.wf() {
                crate::session_laws::law_next_keeps_wf(self@, event);
            }
        }
        let after = self.advance(event);
        *self = after;
        self.pending()
    }
}

} // verus!
