//! The re-encoder as a state machine: copy every frame of the temporary
//! file, in order, into a final file stamped with the observed rate.

use vstd::prelude::*;
use crate::error::RecordingError;
use crate::frame::FrameShape;
use crate::protocol::{Event, Reply, StreamRead};
use crate::timing::FrameRate;

verus! {

/// Where the re-encoder stands: each phase but the last waits for one reply.
#[derive(Clone, Copy, Debug, PartialEq, Eq, Structural)]
pub enum ReencodePhase {
    /// Waiting for the temporary file to be opened for reading.
    OpeningInput,
    /// Waiting to hear whether the temporary file is open.
    VerifyingInput,
    /// Waiting for the frame size of the temporary file.
    QueryingSize,
    /// Waiting for the writer of the final file to be created.
    OpeningOutput,
    /// Waiting to hear whether the writer of the final file is open.
    VerifyingOutput,
    /// Waiting for the next frame of the temporary file.
    Reading,
    /// Waiting for a frame to be written to the final file.
    Writing,
    /// Waiting for the writer of the final file to be released.
    Releasing { error: Option<RecordingError> },
    /// The re-encoder is done.
    Finished { error: Option<RecordingError> },
}

/// What the caller is asked to do.
#[derive(Clone, Copy, Debug, PartialEq, Eq, Structural)]
pub enum ReencodeAction {
    /// Open the temporary file for sequential reading; reply with `Completed`.
    OpenInput,
    /// Ask the opened file whether it is open; reply with `Completed`.
    VerifyInput,
    /// Ask the opened file for its frame size; reply with `StreamSize`.
    QuerySize,
    /// Create the writer of the final file with this rate and frame size;
    /// reply with `Completed`.
    OpenOutput { rate: FrameRate, shape: FrameShape },
    /// Ask the writer whether it is open; reply with `Completed`.
    VerifyOutput,
    /// Read the next frame of the temporary file; reply with `StreamFrame`.
    ReadFrame,
    /// Write the frame just read to the final file; reply with `Completed`.
    WriteFrame,
    /// Release the writer of the final file; reply with `Completed`.
    ReleaseOutput,
    /// Nothing more: the re-encoder is done, with this failure if any.
    Finish { error: Option<RecordingError> },
}

/// The re-encoder as a mathematical value: the counters are unbounded.
pub struct ReencodeModel {
    pub rate: FrameRate,
    pub phase: ReencodePhase,
    pub shape: FrameShape,
    pub frames_copied: nat,
    pub frames_skipped: nat,
    pub output_held: bool,
}

/// The re-encoder as it runs.
#[derive(Clone, Copy, Debug, PartialEq, Eq, Structural)]
pub struct Reencoder {
    /// Rate to stamp on the final file.
    pub rate: FrameRate,
    /// Where the re-encoder stands.
    pub phase: ReencodePhase,
    /// Frame size of the temporary file, once known.
    pub shape: FrameShape,
    /// Frames written to the final file so far.
    pub frames_copied: u64,
    /// Empty frames passed over so far.
    pub frames_skipped: u64,
    /// Whether the writer of the final file is open and not yet released.
    pub output_held: bool,
}

impl ReencodeModel {
    /// The state a re-encoder starts in.
    pub open spec fn init(rate: FrameRate) -> ReencodeModel {
        ReencodeModel {
            rate,
            phase: ReencodePhase::OpeningInput,
            shape: FrameShape { cols: 0, rows: 0 },
            frames_copied: 0,
            frames_skipped: 0,
            output_held: false,
        }
    }

    /// The writer of the final file is held exactly while frames are copied
    /// and until it has been released.
    pub open spec fn wf(self) -> bool {
        self.output_held <==> (self.phase is Reading || self.phase is Writing
            || self.phase is Releasing)
    }

    /// The action the re-encoder is waiting on.
    pub open spec fn pending(self) -> ReencodeAction {
        match self.phase {
            ReencodePhase::OpeningInput => ReencodeAction::OpenInput,
            ReencodePhase::VerifyingInput => ReencodeAction::VerifyInput,
            ReencodePhase::QueryingSize => ReencodeAction::QuerySize,
            ReencodePhase::OpeningOutput => ReencodeAction::OpenOutput {
                rate: self.rate,
                shape: self.shape,
            },
            ReencodePhase::VerifyingOutput => ReencodeAction::VerifyOutput,
            ReencodePhase::Reading => ReencodeAction::ReadFrame,
            ReencodePhase::Writing => ReencodeAction::WriteFrame,
            ReencodePhase::Releasing { .. } => ReencodeAction::ReleaseOutput,
            ReencodePhase::Finished { error } => ReencodeAction::Finish { error },
        }
    }

    /// The re-encoder in phase `phase`, all else unchanged.
    pub open spec fn moved(self, phase: ReencodePhase) -> ReencodeModel {
        ReencodeModel { phase, ..self }
    }

    /// The re-encoder stopped by `error` before the final writer was held.
    pub open spec fn failed(self, error: RecordingError) -> ReencodeModel {
        ReencodeModel { phase: ReencodePhase::Finished { error: Some(error) }, ..self }
    }

    /// The re-encoder after one frame of the temporary file was read.
    pub open spec fn after_read(self, read: StreamRead) -> ReencodeModel {
        match read {
            StreamRead::Frame { empty } => if empty {
                ReencodeModel { frames_skipped: self.frames_skipped + 1, ..self }
            } else {
                self.moved(ReencodePhase::Writing)
            },
            StreamRead::EndOfStream => self.moved(ReencodePhase::Releasing { error: None }),
            StreamRead::Failed => self.moved(
                ReencodePhase::Releasing { error: Some(RecordingError::ReadTemporaryFrame) },
            ),
        }
    }

    /// The transition function: the re-encoder after `event`. A reply that
    /// does not answer the pending action changes nothing.
    pub open spec fn next(self, event: Event) -> ReencodeModel {
        match (self.phase, event.reply) {
            (ReencodePhase::OpeningInput, Reply::Completed { ok }) => if ok {
                self.moved(ReencodePhase::VerifyingInput)
            } else {
                self.failed(RecordingError::OpenTemporaryFile)
            },
            (ReencodePhase::VerifyingInput, Reply::Completed { ok }) => if ok {
                self.moved(ReencodePhase::QueryingSize)
            } else {
                self.failed(RecordingError::TemporaryFileNotOpened)
            },
            (ReencodePhase::QueryingSize, Reply::StreamSize { ok, shape }) => if ok {
                ReencodeModel { phase: ReencodePhase::OpeningOutput, shape, ..self }
            } else {
                self.failed(RecordingError::QueryFrameSize)
            },
            (ReencodePhase::OpeningOutput, Reply::Completed { ok }) => if ok {
                self.moved(ReencodePhase::VerifyingOutput)
            } else {
                self.failed(RecordingError::OpenFinalWriter)
            },
            (ReencodePhase::VerifyingOutput, Reply::Completed { ok }) => if ok {
                ReencodeModel { phase: ReencodePhase::Reading, output_held: true, ..self }
            } else {
                self.failed(RecordingError::FinalWriterNotOpened)
            },
            (ReencodePhase::Reading, Reply::StreamFrame { read }) => self.after_read(read),
            (ReencodePhase::Writing, Reply::Completed { ok }) => if ok {
                ReencodeModel {
                    phase: ReencodePhase::Reading,
                    frames_copied: self.frames_copied + 1,
                    ..self
                }
            } else {
                self.moved(
                    ReencodePhase::Releasing { error: Some(RecordingError::WriteFinalFrame) },
                )
            },
            (ReencodePhase::Releasing { error }, Reply::Completed { .. }) => ReencodeModel {
                phase: ReencodePhase::Finished { error },
                output_held: false,
                ..self
            },
            _ => self,
        }
    }

    /// The re-encoder after all of `events`, taken in order.
    pub open spec fn run(self, events: Seq<Event>) -> ReencodeModel
        decreases events.len(),
    {
        if events.len() == 0 {
            self
        } else {
            self.run(events.drop_last()).next(events.last())
        }
    }
}

impl View for Reencoder {
    type V = ReencodeModel;

    open spec fn view(&self) -> ReencodeModel {
        ReencodeModel {
            rate: self.rate,
            phase: self.phase,
            shape: self.shape,
            frames_copied: self.frames_copied as nat,
            frames_skipped: self.frames_skipped as nat,
            output_held: self.output_held,
        }
    }
}

impl Reencoder {
    /// Both counters can still grow by one.
    pub open spec fn has_room_spec(self) -> bool {
        self.frames_copied < u64::MAX && self.frames_skipped < u64::MAX
    }

    /// A re-encoder that will stamp `rate` on the final file.
    pub fn new(rate: FrameRate) -> (reencoder: Reencoder)
        ensures
            reencoder@ == ReencodeModel::init(rate),
            reencoder@.wf(),
            reencoder.has_room_spec(),
    {
        Reencoder {
            rate,
            phase: ReencodePhase::OpeningInput,
            shape: FrameShape { cols: 0, rows: 0 },
            frames_copied: 0,
            frames_skipped: 0,
            output_held: false,
        }
    }

    /// Whether both counters can still grow by one, as `step` needs.
    pub fn has_room(&self) -> (room: bool)
        ensures
            room == self.has_room_spec(),
    {
        self.frames_copied < u64::MAX && self.frames_skipped < u64::MAX
    }

    /// The action the re-encoder is waiting on.
    pub fn pending(&self) -> (action: ReencodeAction)
        ensures
            action == self@.pending(),
    {
        match self.phase {
            ReencodePhase::OpeningInput => ReencodeAction::OpenInput,
            ReencodePhase::VerifyingInput => ReencodeAction::VerifyInput,
            ReencodePhase::QueryingSize => ReencodeAction::QuerySize,
            ReencodePhase::OpeningOutput => ReencodeAction::OpenOutput {
                rate: self.rate,
                shape: self.shape,
            },
            ReencodePhase::VerifyingOutput => ReencodeAction::VerifyOutput,
            ReencodePhase::Reading => ReencodeAction::ReadFrame,
            ReencodePhase::Writing => ReencodeAction::WriteFrame,
            ReencodePhase::Releasing { .. } => ReencodeAction::ReleaseOutput,
            ReencodePhase::Finished { error } => ReencodeAction::Finish { error },
        }
    }

    /// How the re-encoder ended, if it has: `Ok` when every frame was copied.
    pub fn outcome(&self) -> (outcome: Option<Result<(), RecordingError>>)
        ensures
            outcome == (match self@.phase {
                ReencodePhase::Finished { error: None } => Some(Ok::<(), RecordingError>(())),
                ReencodePhase::Finished { error: Some(e) } => Some(Err::<(), RecordingError>(e)),
                _ => None,
            }),
    {
        match self.phase {
            ReencodePhase::Finished { error: None } => Some(Ok(())),
            ReencodePhase::Finished { error: Some(e) } => Some(Err(e)),
            _ => None,
        }
    }

    /// The re-encoder after `event`.
    fn advance(self, event: Event) -> (after: Reencoder)
        requires
            self.has_room_spec(),
        ensures
            after@ == self@.next(event),
    {
        match (self.phase, event.reply) {
            (ReencodePhase::OpeningInput, Reply::Completed { ok }) => {
                if ok {
                    Reencoder { phase: ReencodePhase::VerifyingInput, ..self }
                } else {
                    self.fail(RecordingError::OpenTemporaryFile)
                }
            },
            (ReencodePhase::VerifyingInput, Reply::Completed { ok }) => {
                if ok {
                    Reencoder { phase: ReencodePhase::QueryingSize, ..self }
                } else {
                    self.fail(RecordingError::TemporaryFileNotOpened)
                }
            },
            (ReencodePhase::QueryingSize, Reply::StreamSize { ok, shape }) => {
                if ok {
                    Reencoder { phase: ReencodePhase::OpeningOutput, shape, ..self }
                } else {
                    self.fail(RecordingError::QueryFrameSize)
                }
            },
            (ReencodePhase::OpeningOutput, Reply::Completed { ok }) => {
                if ok {
                    Reencoder { phase: ReencodePhase::VerifyingOutput, ..self }
                } else {
                    self.fail(RecordingError::OpenFinalWriter)
                }
            },
            (ReencodePhase::VerifyingOutput, Reply::Completed { ok }) => {
                if ok {
                    Reencoder { phase: ReencodePhase::Reading, output_held: true, ..self }
                } else {
                    self.fail(RecordingError::FinalWriterNotOpened)
                }
            },
            (ReencodePhase::Reading, Reply::StreamFrame { read }) => {
                match read {
                    StreamRead::Frame { empty } => {
                        if empty {
                            Reencoder { frames_skipped: self.frames_skipped + 1, ..self }
                        } else {
                            Reencoder { phase: ReencodePhase::Writing, ..self }
                        }
                    },
                    StreamRead::EndOfStream => Reencoder {
                        phase: ReencodePhase::Releasing { error: None },
                        ..self
                    },
                    StreamRead::Failed => Reencoder {
                        phase: ReencodePhase::Releasing {
                            error: Some(RecordingError::ReadTemporaryFrame),
                        },
                        ..self
                    },
                }
            },
            (ReencodePhase::Writing, Reply::Completed { ok }) => {
                if ok {
                    Reencoder {
                        phase: ReencodePhase::Reading,
                        frames_copied: self.frames_copied + 1,
                        ..self
                    }
                } else {
                    Reencoder {
                        phase: ReencodePhase::Releasing {
                            error: Some(RecordingError::WriteFinalFrame),
                        },
                        ..self
                    }
                }
            },
            (ReencodePhase::Releasing { error }, Reply::Completed { .. }) => {
                Reencoder { phase: ReencodePhase::Finished { error }, output_held: false, ..self }
            },
            _ => self,
        }
    }

    /// The re-encoder stopped by `error` before the final writer was held.
    fn fail(self, error: RecordingError) -> (after: Reencoder)
        ensures
            after@ == self@.failed(error),
    {
        Reencoder { phase: ReencodePhase::Finished { error: Some(error) }, ..self }
    }

    /// Takes the reply to the pending action and returns the next action.
    /// A reply of the wrong kind is ignored: the same action comes back.
    pub fn step(&mut self, event: Event) -> (action: ReencodeAction)
        requires
            old(self).has_room_spec(),
        ensures
            final(self)@ == old(self)@.next(event),
            action == final(self)@.pending(),
            old(self)@.wf() ==> final(self)@.wf(),
    {
        let after = self.advance(event);
        *self = after;
        self.pending()
    }
}

} // verus!
