//! Error taxonomy of the library.
//!
//! Invariant violations inside the core are ruled out by verification, so the
//! errors that remain describe runtime conditions: a coordination channel that
//! was closed underneath a caller, or a serial device that failed.

use vstd::prelude::*;

verus! {

/// A runtime failure of the scheduling core or one of its collaborators.
#[derive(Clone, Copy, PartialEq, Eq, Structural, Debug)]
pub enum PsychophysicsError {
    /// The frame handoff channel was closed, so a frame could not be
    /// submitted to or fetched by the presentation side.
    FrameChannelClosed,
    /// The acknowledgement channel was closed, so presentation completion
    /// can no longer be reported.
    AckChannelClosed,
    /// A serial device failed to open or to accept data.
    SerialPortError,
}

} // verus!
