//! What can go wrong while a frame is rendered.

use vstd::prelude::*;
use crate::config::RenderMethod;
use crate::frame::FrameError;

verus! {

/// Why a frame was not rendered.
#[derive(Clone, Copy, Debug, PartialEq, Eq, Structural)]
pub enum RenderError {
    /// Something the renderer needs is not there: the size of the terminal
    /// could not be found out.
    ResourceUnavailable,
    /// A method could not encode or write the frame.
    ProtocolFailure(RenderMethod),
    /// The frame itself is broken.
    InvariantViolation(FrameError),
    /// The renderer was handed an event that it did not wait for.
    OutOfTurn,
}

impl RenderError {
    /// The sentence for the user that goes with an error.
    pub open spec fn text(self) -> Seq<char> {
        match self {
            RenderError::ResourceUnavailable => "Failed to get terminal size"@,
            RenderError::ProtocolFailure(_) => "Failed to write the frame to the terminal"@,
            RenderError::InvariantViolation(_) => "Invalid image data dimensions"@,
            RenderError::OutOfTurn => "Unexpected render event"@,
        }
    }

    /// A sentence for the user.
    pub fn message(&self) -> (out: &'static str)
        ensures
            out@ == self.text(),
    {
        match self {
            RenderError::ResourceUnavailable => "Failed to get terminal size",
            RenderError::ProtocolFailure(_) => "Failed to write the frame to the terminal",
            RenderError::InvariantViolation(_) => "Invalid image data dimensions",
            RenderError::OutOfTurn => "Unexpected render event",
        }
    }
}

} // verus!
