//! What the recorder knows of a frame: its size and whether it holds pixels.
//! The pixels themselves never pass through this library.

use vstd::prelude::*;
use crate::timing::FrameRate;

verus! {

/// Width every camera frame is brought to, in pixels.
pub const FRAME_WIDTH: i32 = 1280;

/// Height every camera frame is brought to, in pixels.
pub const FRAME_HEIGHT: i32 = 720;

/// Capture rate asked of the cameras, in whole frames per second.
pub const REQUESTED_FPS: u32 = 24;

/// Index of the primary camera, whose picture goes on the right.
pub const PRIMARY_CAMERA: u8 = 0;

/// Index of the secondary camera, whose picture goes on the left.
pub const SECONDARY_CAMERA: u8 = 1;

/// Size of a frame in pixels.
#[derive(Clone, Copy, Debug, PartialEq, Eq, Structural)]
pub struct FrameShape {
    pub cols: i32,
    pub rows: i32,
}

/// Outcome of asking one camera for a frame.
#[derive(Clone, Copy, Debug, PartialEq, Eq, Structural)]
pub struct CameraRead {
    /// The camera reported that it delivered a frame.
    pub delivered: bool,
    /// The delivered buffer holds no pixels.
    pub empty: bool,
    /// Size of the delivered buffer.
    pub shape: FrameShape,
}

/// Target frame size and rate of one recording.
#[derive(Clone, Copy, Debug, PartialEq, Eq, Structural)]
pub struct CaptureConfig {
    pub cols: i32,
    pub rows: i32,
    pub fps: u32,
}

/// Two frames side by side: widths add up, the common height stays.
/// Undefined when the heights differ or the sum leaves the pixel range.
pub open spec fn side_by_side_spec(left: FrameShape, right: FrameShape) -> Option<FrameShape> {
    if left.rows == right.rows && left.cols >= 0 && right.cols >= 0 && left.cols + right.cols
        <= i32::MAX {
        Some(FrameShape { cols: (left.cols + right.cols) as i32, rows: left.rows })
    } else {
        None
    }
}

impl CameraRead {
    /// A read can be recorded only if a frame came and it holds pixels.
    pub open spec fn usable_spec(self) -> bool {
        self.delivered && !self.empty
    }

    /// Whether this read produced a frame that can be recorded.
    pub fn usable(&self) -> (ok: bool)
        ensures
            ok == self.usable_spec(),
    {
        self.delivered && !self.empty
    }

    /// A read that produced a frame of the given size.
    pub fn frame(cols: i32, rows: i32) -> (read: CameraRead)
        ensures
            read == (CameraRead { delivered: true, empty: false, shape: FrameShape { cols, rows } }),
            read.usable_spec(),
    {
        CameraRead { delivered: true, empty: false, shape: FrameShape { cols, rows } }
    }

    /// A read that produced nothing.
    pub fn dropped() -> (read: CameraRead)
        ensures
            read == (CameraRead { delivered: false, empty: true, shape: FrameShape { cols: 0, rows: 0 } }),
            !read.usable_spec(),
    {
        CameraRead { delivered: false, empty: true, shape: FrameShape { cols: 0, rows: 0 } }
    }
}

impl CaptureConfig {
    /// Both dimensions are positive, the doubled width still fits a pixel
    /// count, and the rate is not zero.
    pub open spec fn wf(self) -> bool {
        &&& 0 < self.cols
        &&& 2 * self.cols <= i32::MAX
        &&& 0 < self.rows
        &&& 0 < self.fps
    }

    /// Size that every camera frame must have before it is joined.
    pub open spec fn target_spec(self) -> FrameShape {
        FrameShape { cols: self.cols, rows: self.rows }
    }

    /// Size of the joined frame: twice the width, the same height.
    pub open spec fn composite_spec(self) -> FrameShape {
        FrameShape { cols: (2 * self.cols) as i32, rows: self.rows }
    }

    /// The requested capture rate as an exact ratio.
    pub open spec fn requested_rate_spec(self) -> FrameRate {
        FrameRate { frames: self.fps as u64, nanos: crate::timing::NANOS_PER_SECOND }
    }

    /// Time allotted to one loop iteration.
    pub open spec fn interval_spec(self) -> int {
        self.requested_rate_spec().interval_spec()
    }

    /// Two frames must be resized unless both already have the target size.
    pub open spec fn needs_resize_spec(self, primary: FrameShape, secondary: FrameShape) -> bool {
        primary != self.target_spec() || secondary != self.target_spec()
    }

    /// The configuration the recorder ships with.
    pub fn standard() -> (config: CaptureConfig)
        ensures
            config == (CaptureConfig { cols: FRAME_WIDTH, rows: FRAME_HEIGHT, fps: REQUESTED_FPS }),
            config.wf(),
    {
        CaptureConfig { cols: FRAME_WIDTH, rows: FRAME_HEIGHT, fps: REQUESTED_FPS }
    }

    /// Whether this configuration is well formed, as a session needs it.
    pub fn is_valid(&self) -> (valid: bool)
        ensures
            valid == self.wf(),
    {
        0 < self.cols && self.cols <= i32::MAX / 2 && 0 < self.rows && 0 < self.fps
    }

    /// A configuration of the caller's choosing; `None` unless it is well formed.
    pub fn new(cols: i32, rows: i32, fps: u32) -> (config: Option<CaptureConfig>)
        ensures
            config is Some <==> (CaptureConfig { cols, rows, fps }).wf(),
            config matches Some(c) ==> c == (CaptureConfig { cols, rows, fps }),
    {
        let config = CaptureConfig { cols, rows, fps };
        if config.is_valid() {
            Some(config)
        } else {
            None
        }
    }

    /// Size that every camera frame must have before it is joined.
    pub fn target(&self) -> (shape: FrameShape)
        ensures
            shape == self.target_spec(),
    {
        FrameShape { cols: self.cols, rows: self.rows }
    }

    /// Size of the joined frame.
    pub fn composite(&self) -> (shape: FrameShape)
        requires
            self.wf(),
        ensures
            shape == self.composite_spec(),
            shape.cols == 2 * self.cols,
            shape.rows == self.rows,
    {
        FrameShape { cols: 2 * self.cols, rows: self.rows }
    }

    /// The requested capture rate as an exact ratio.
    pub fn requested_rate(&self) -> (rate: FrameRate)
        ensures
            rate == self.requested_rate_spec(),
    {
        FrameRate::per_second(self.fps)
    }

    /// Time allotted to one loop iteration, in nanoseconds.
    pub fn frame_interval(&self) -> (nanos: u64)
        requires
            self.wf(),
        ensures
            nanos == self.interval_spec(),
    {
        self.requested_rate().interval_nanos()
    }

    /// Whether the two frames just read must be resized before they are joined.
    pub fn needs_resize(&self, primary: FrameShape, secondary: FrameShape) -> (resize: bool)
        ensures
            resize == self.needs_resize_spec(primary, secondary),
    {
        primary.cols != self.cols || primary.rows != self.rows || secondary.cols != self.cols
            || secondary.rows != self.rows
    }
}

/// Size of the frame made by placing `left` and `right` side by side.
pub fn side_by_side(left: FrameShape, right: FrameShape) -> (joined: Option<FrameShape>)
    ensures
        joined == side_by_side_spec(left, right),
{
    if left.rows == right.rows && left.cols >= 0 && right.cols >= 0 && left.cols <= i32::MAX
        - right.cols {
        Some(FrameShape { cols: left.cols + right.cols, rows: left.rows })
    } else {
        None
    }
}

/// Two frames of the target size always join into a frame twice as wide and
/// just as high.
pub proof fn lemma_joined_targets(config: CaptureConfig)
    requires
        config.wf(),
    ensures
        side_by_side_spec(config.target_spec(), config.target_spec()) == Some(
            config.composite_spec(),
        ),
        config.composite_spec().cols == 2 * config.cols,
        config.composite_spec().rows == config.rows,
{
}

} // verus!
