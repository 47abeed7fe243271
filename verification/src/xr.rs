//! What the renderer exchanges with a stereo runtime that brackets a frame.

use vstd::prelude::*;

verus! {

/// Where frames go: to the window's surface alone, or to a stereo runtime
/// as well. Chosen once at startup.
#[derive(Clone, Copy, Debug, PartialEq, Eq, Structural)]
pub enum FrameSource {
    PlainSurface,
    StereoXrSurface,
}

/// The timing prediction that the runtime hands out when a frame begins and
/// takes back when it ends, in nanoseconds.
#[derive(Clone, Copy, Debug, PartialEq, Eq, Structural)]
pub struct FrameState {
    pub predicted_display_time: i64,
    pub predicted_display_period: i64,
}

/// Why the runtime could not take a finished frame.
#[derive(Clone, Copy, Debug, PartialEq, Eq, Structural)]
pub enum XrError {
    /// A passing condition, such as a failed pose prediction. The tick
    /// still counts as complete.
    Transient,
    /// The session is gone. Nothing further can be shown.
    SessionLost,
}

} // verus!
