use vstd::prelude::*;

use crate::geometry::Size;

verus! {

/// Why a recording could not be set up, went on, or why an operation was refused.
#[derive(Clone, Copy, Debug, PartialEq, Eq, Structural)]
pub enum SessionError {
    /// A resource could not be acquired before recording began (platform code).
    SetupError { code: i32 },
    /// Pulling or encoding a frame failed while recording (platform code).
    StreamError { code: i32 },
    /// The captured content size no longer matches the encoder's input size.
    GeometryMismatch { expected: Size, actual: Size },
    /// No hardware encoder is available.
    EmptyDeviceList,
    /// The encoder asked for is not among those enumerated.
    EncoderIndexOutOfRange { index: usize, count: usize },
    /// A frame rate of zero, a bit rate too large, or an empty frame size.
    InvalidSettings,
    /// `start` on a session that is already running.
    AlreadyStarted,
    /// `start` on a session that has stopped: a session is not restarted.
    AlreadyStopped,
    /// `stop` on a session that was never started.
    NotStarted,
}

} // verus!
