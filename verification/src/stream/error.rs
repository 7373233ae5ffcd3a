//! Failures of the streaming path.

use vstd::prelude::*;

verus! {

/// Why a stream could not be served.
#[derive(Clone, Copy, Debug, PartialEq, Eq, Structural)]
pub enum StreamError {
    /// The engine could not open the file for streaming, or a seek or a read
    /// on the open stream failed.
    StreamUnavailable,
}

impl StreamError {
    /// The HTTP status that goes with the failure.
    pub open spec fn spec_status(self) -> u16 {
        500
    }

    /// The stable machine-readable code of the failure.
    pub open spec fn spec_code(self) -> Seq<char> {
        "failed_to_acquire_stream"@
    }

    /// The human-readable message of the failure.
    pub open spec fn spec_message(self) -> Seq<char> {
        "Failed to acquire stream"@
    }

    /// The HTTP status and the machine-readable code of the failure.
    pub fn get_codes(&self) -> (r: (u16, &'static str))
        ensures
            r.0 == self.spec_status(),
            r.1@ == self.spec_code(),
    {
        match self {
            StreamError::StreamUnavailable => (500, "failed_to_acquire_stream"),
        }
    }

    /// The human-readable message of the failure.
    pub fn message(&self) -> (r: &'static str)
        ensures
            r@ == self.spec_message(),
    {
        match self {
            StreamError::StreamUnavailable => "Failed to acquire stream",
        }
    }
}

} // verus!
