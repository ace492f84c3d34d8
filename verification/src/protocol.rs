//! What the caller reports back after performing an action.

use vstd::prelude::*;
use crate::frame::{CameraRead, FrameShape};

verus! {

/// Outcome of reading the next frame of a video file.
#[derive(Clone, Copy, Debug, PartialEq, Eq, Structural)]
pub enum StreamRead {
    /// A frame came; `empty` tells whether it holds no pixels.
    Frame { empty: bool },
    /// The file has no more frames.
    EndOfStream,
    /// The read itself failed.
    Failed,
}

/// The result of one performed action.
#[derive(Clone, Copy, Debug, PartialEq, Eq, Structural)]
pub enum Reply {
    /// An effect ran to its end; `ok` tells whether it succeeded.
    Completed { ok: bool },
    /// The stop flag was polled; `set` is its value.
    Flag { set: bool },
    /// Both cameras were read.
    Frames { primary: CameraRead, secondary: CameraRead },
    /// The frame size of an opened video file was queried.
    StreamSize { ok: bool, shape: FrameShape },
    /// The next frame of a video file was read.
    StreamFrame { read: StreamRead },
}

/// A reply together with the reading of the caller's clock, in nanoseconds,
/// taken when the action finished. The clock may start anywhere.
#[derive(Clone, Copy, Debug, PartialEq, Eq, Structural)]
pub struct Event {
    pub at_nanos: u64,
    pub reply: Reply,
}

impl Event {
    /// An effect that finished at `at_nanos`.
    pub fn completed(at_nanos: u64, ok: bool) -> (event: Event)
        ensures
            event == (Event { at_nanos, reply: Reply::Completed { ok } }),
    {
        Event { at_nanos, reply: Reply::Completed { ok } }
    }

    /// The stop flag as read at `at_nanos`.
    pub fn flag(at_nanos: u64, set: bool) -> (event: Event)
        ensures
            event == (Event { at_nanos, reply: Reply::Flag { set } }),
    {
        Event { at_nanos, reply: Reply::Flag { set } }
    }

    /// The two camera reads that finished at `at_nanos`.
    pub fn frames(at_nanos: u64, primary: CameraRead, secondary: CameraRead) -> (event: Event)
        ensures
            event == (Event { at_nanos, reply: Reply::Frames { primary, secondary } }),
    {
        Event { at_nanos, reply: Reply::Frames { primary, secondary } }
    }

    /// The answer to a frame size query.
    pub fn stream_size(at_nanos: u64, ok: bool, cols: i32, rows: i32) -> (event: Event)
        ensures
            event == (Event {
                at_nanos,
                reply: Reply::StreamSize { ok, shape: FrameShape { cols, rows } },
            }),
    {
        Event { at_nanos, reply: Reply::StreamSize { ok, shape: FrameShape { cols, rows } } }
    }

    /// The outcome of reading one frame of a video file.
    pub fn stream_frame(at_nanos: u64, read: StreamRead) -> (event: Event)
        ensures
            event == (Event { at_nanos, reply: Reply::StreamFrame { read } }),
    {
        Event { at_nanos, reply: Reply::StreamFrame { read } }
    }
}

} // verus!
