//! Decision core of a two-camera side-by-side video recorder.
//!
//! The recorder pulls one frame from each of two cameras, joins the pair into
//! one wide frame, appends it to a temporary video file, and, once stopped,
//! rewrites that file with the frame rate that was actually achieved.
//!
//! Every decision of that pipeline lives here as a deterministic state
//! machine: the caller performs the pending action (poll the stop flag, read
//! the cameras, write a frame, sleep, ...) and feeds back what happened.
//!
//! - [`session`] strings a whole recording together; [`capture`] and
//!   [`reencode`] are its two working phases, usable on their own.
//! - [`protocol`] holds the replies the caller sends back, [`frame`] and
//!   [`timing`] the sizes, rates and pacing arithmetic, [`files`] the names
//!   of the files, and [`error`] the failures a session can end with.
//! - `capture_laws`, `reencode_laws` and `session_laws` state and prove
//!   what holds of every run of the three machines.

pub mod capture;
pub mod capture_laws;
pub mod error;
pub mod files;
pub mod frame;
pub mod protocol;
pub mod reencode;
pub mod reencode_laws;
pub mod session;
pub mod session_laws;
pub mod timing;

