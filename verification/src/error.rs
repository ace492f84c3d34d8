//! The ways a recording can fail.

use vstd::prelude::*;

verus! {

/// The broad kinds of failure, by what the caller can expect of the files.
#[derive(Clone, Copy, Debug, PartialEq, Eq, Structural)]
pub enum ErrorClass {
    /// Nothing was recorded: a directory, camera or writer could not be had.
    Setup,
    /// The capture loop had to give up; no final file was attempted.
    Capture,
    /// The loop ran and stopped without a single written frame.
    EmptySession,
    /// The temporary file could not be rewritten; it is left in place.
    Reencode,
    /// The final file is complete but the temporary file could not be removed.
    Cleanup,
}

/// Every failure a recording session can end with.
#[derive(Clone, Copy, Debug, PartialEq, Eq, Structural)]
pub enum RecordingError {
    /// The save directory could not be created.
    CreateDirectory,
    /// The camera with this index could not be opened.
    OpenCamera { index: u8 },
    /// The camera with this index refused its size or rate.
    ConfigureCamera { index: u8 },
    /// At least one camera reports that it is not open.
    CamerasNotOpened,
    /// The writer of the temporary file could not be created.
    OpenTemporaryWriter,
    /// The writer of the temporary file reports that it is not open.
    TemporaryWriterNotOpened,
    /// The camera frames could not be resized.
    ResizeFrames,
    /// The camera frames could not be joined.
    ComposeFrames,
    /// A joined frame could not be written to the temporary file.
    WriteFrame,
    /// The session stopped before any frame was written.
    NoFramesRecorded,
    /// The temporary file could not be opened for reading.
    OpenTemporaryFile,
    /// The temporary file reports that it is not open.
    TemporaryFileNotOpened,
    /// The frame size of the temporary file could not be read.
    QueryFrameSize,
    /// The writer of the final file could not be created.
    OpenFinalWriter,
    /// The writer of the final file reports that it is not open.
    FinalWriterNotOpened,
    /// A frame of the temporary file could not be read.
    ReadTemporaryFrame,
    /// A frame could not be written to the final file.
    WriteFinalFrame,
    /// The temporary file could not be removed after the final file was done.
    RemoveTemporaryFile,
}

impl RecordingError {
    /// The kind of failure this is.
    pub open spec fn class_spec(self) -> ErrorClass {
        match self {
            RecordingError::CreateDirectory
            | RecordingError::OpenCamera { .. }
            | RecordingError::ConfigureCamera { .. }
            | RecordingError::CamerasNotOpened
            | RecordingError::OpenTemporaryWriter
            | RecordingError::TemporaryWriterNotOpened => ErrorClass::Setup,
            RecordingError::ResizeFrames
            | RecordingError::ComposeFrames
            | RecordingError::WriteFrame => ErrorClass::Capture,
            RecordingError::NoFramesRecorded => ErrorClass::EmptySession,
            RecordingError::OpenTemporaryFile
            | RecordingError::TemporaryFileNotOpened
            | RecordingError::QueryFrameSize
            | RecordingError::OpenFinalWriter
            | RecordingError::FinalWriterNotOpened
            | RecordingError::ReadTemporaryFrame
            | RecordingError::WriteFinalFrame => ErrorClass::Reencode,
            RecordingError::RemoveTemporaryFile => ErrorClass::Cleanup,
        }
    }

    /// The operation that failed, in words.
    pub open spec fn describe_spec(self) -> Seq<char> {
        match self {
            RecordingError::CreateDirectory => "Failed to create save directory"@,
            RecordingError::OpenCamera { index } => if index == 0 {
                "Failed to open camera 0"@
            } else {
                "Failed to open camera 1"@
            },
            RecordingError::ConfigureCamera { index } => if index == 0 {
                "Failed to configure camera 0"@
            } else {
                "Failed to configure camera 1"@
            },
            RecordingError::CamerasNotOpened => "Could not open one or both cameras."@,
            RecordingError::OpenTemporaryWriter => "Failed to create temporary VideoWriter"@,
            RecordingError::TemporaryWriterNotOpened => "Could not open temporary video writer."@,
            RecordingError::ResizeFrames => "Failed to resize frames"@,
            RecordingError::ComposeFrames => "Failed to horizontally concatenate frames"@,
            RecordingError::WriteFrame => "Failed to write frame to temporary file"@,
            RecordingError::NoFramesRecorded => "No frames recorded, possibly stopped too early or encountered immediate issue."@,
            RecordingError::OpenTemporaryFile => "Failed to open temporary video file for re-encoding"@,
            RecordingError::TemporaryFileNotOpened => "Could not open temporary video file"@,
            RecordingError::QueryFrameSize => "Failed to read the frame size of the temporary video file"@,
            RecordingError::OpenFinalWriter => "Failed to create final VideoWriter for re-encoding"@,
            RecordingError::FinalWriterNotOpened => "Could not open final video writer"@,
            RecordingError::ReadTemporaryFrame => "Error reading frame during re-encoding"@,
            RecordingError::WriteFinalFrame => "Failed to write frame during re-encoding"@,
            RecordingError::RemoveTemporaryFile => "Failed to remove temporary file"@,
        }
    }

    /// The kind of failure this is.
    pub fn class(&self) -> (class: ErrorClass)
        ensures
            class == self.class_spec(),
    {
        match self {
            RecordingError::CreateDirectory
            | RecordingError::OpenCamera { .. }
            | RecordingError::ConfigureCamera { .. }
            | RecordingError::CamerasNotOpened
            | RecordingError::OpenTemporaryWriter
            | RecordingError::TemporaryWriterNotOpened => ErrorClass::Setup,
            RecordingError::ResizeFrames
            | RecordingError::ComposeFrames
            | RecordingError::WriteFrame => ErrorClass::Capture,
            RecordingError::NoFramesRecorded => ErrorClass::EmptySession,
            RecordingError::OpenTemporaryFile
            | RecordingError::TemporaryFileNotOpened
            | RecordingError::QueryFrameSize
            | RecordingError::OpenFinalWriter
            | RecordingError::FinalWriterNotOpened
            | RecordingError::ReadTemporaryFrame
            | RecordingError::WriteFinalFrame => ErrorClass::Reencode,
            RecordingError::RemoveTemporaryFile => ErrorClass::Cleanup,
        }
    }

    /// The operation that failed, in words fit for a log line.
    pub fn describe(&self) -> (text: &'static str)
        ensures
            text@ == self.describe_spec(),
    {
        match self {
            RecordingError::CreateDirectory => "Failed to create save directory",
            RecordingError::OpenCamera { index } => if *index == 0 {
                "Failed to open camera 0"
            } else {
                "Failed to open camera 1"
            },
            RecordingError::ConfigureCamera { index } => if *index == 0 {
                "Failed to configure camera 0"
            } else {
                "Failed to configure camera 1"
            },
            RecordingError::CamerasNotOpened => "Could not open one or both cameras.",
            RecordingError::OpenTemporaryWriter => "Failed to create temporary VideoWriter",
            RecordingError::TemporaryWriterNotOpened => "Could not open temporary video writer.",
            RecordingError::ResizeFrames => "Failed to resize frames",
            RecordingError::ComposeFrames => "Failed to horizontally concatenate frames",
            RecordingError::WriteFrame => "Failed to write frame to temporary file",
            RecordingError::NoFramesRecorded => "No frames recorded, possibly stopped too early or encountered immediate issue.",
            RecordingError::OpenTemporaryFile => "Failed to open temporary video file for re-encoding",
            RecordingError::TemporaryFileNotOpened => "Could not open temporary video file",
            RecordingError::QueryFrameSize => "Failed to read the frame size of the temporary video file",
            RecordingError::OpenFinalWriter => "Failed to create final VideoWriter for re-encoding",
            RecordingError::FinalWriterNotOpened => "Could not open final video writer",
            RecordingError::ReadTemporaryFrame => "Error reading frame during re-encoding",
            RecordingError::WriteFinalFrame => "Failed to write frame during re-encoding",
            RecordingError::RemoveTemporaryFile => "Failed to remove temporary file",
        }
    }
}

} // verus!
