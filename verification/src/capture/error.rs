//! The kinds of failure that the capture core reports.
use vstd::prelude::*;

verus! {

/// What went wrong, by kind.
#[derive(Clone, Copy, Debug, PartialEq, Eq, Structural)]
pub enum CaptureError {
    /// The operating system could not be asked for its displays. A later
    /// query may succeed; a running session is not affected.
    PlatformError,
    /// Permission was denied, or the device was gone, when a stream was opened.
    CaptureUnavailable,
    /// The audio producer outran the buffer. Not fatal: samples were lost and
    /// capture goes on.
    Overrun,
    /// A lifecycle call was made from a state that has no such transition.
    InvalidTransition,
    /// The native layer failed in the middle of a session.
    NativeFailure,
}

impl CaptureError {
    /// Whether a recorder that meets this error ends in the failed state.
    pub open spec fn spec_is_fatal(self) -> bool {
        self is CaptureUnavailable || self is NativeFailure
    }

    /// Whether a recorder that meets this error ends in the failed state.
    #[verifier::when_used_as_spec(spec_is_fatal)]
    pub fn is_fatal(self) -> (fatal: bool)
        ensures
            fatal == self.spec_is_fatal(),
    {
        match self {
            CaptureError::CaptureUnavailable => true,
            CaptureError::NativeFailure => true,
            _ => false,
        }
    }
}

} // verus!
