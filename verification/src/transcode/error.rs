//! Failures of the transcoding path.

use vstd::prelude::*;

verus! {

/// Why a transcoding request could not be served.
#[derive(Clone, Copy, Debug, PartialEq, Eq, Structural)]
pub enum TranscodeError {
    /// Producing the manifest and the init segments of a session failed.
    TranscodeInitFailed,
    /// Producing a media segment failed.
    TranscodeFailed,
    /// The init segment asked for is not in the session's cache directory.
    SegmentNotFound,
}

impl TranscodeError {
    /// The HTTP status that goes with the failure.
    pub open spec fn spec_status(self) -> u16 {
        match self {
            TranscodeError::TranscodeInitFailed => 500,
            TranscodeError::TranscodeFailed => 500,
            TranscodeError::SegmentNotFound => 404,
        }
    }

    /// The stable machine-readable code of the failure.
    pub open spec fn spec_code(self) -> Seq<char> {
        match self {
            TranscodeError::TranscodeInitFailed => "transcode_init_failed"@,
            TranscodeError::TranscodeFailed => "transcode_failed"@,
            TranscodeError::SegmentNotFound => "segment_not_found"@,
        }
    }

    /// The HTTP status and the machine-readable code of the failure.
    pub fn get_codes(&self) -> (r: (u16, &'static str))
        ensures
            r.0 == self.spec_status(),
            r.1@ == self.spec_code(),
    {
        match self {
            TranscodeError::TranscodeInitFailed => (500, "transcode_init_failed"),
            TranscodeError::TranscodeFailed => (500, "transcode_failed"),
            TranscodeError::SegmentNotFound => (404, "segment_not_found"),
        }
    }

    /// The human-readable message of the failure.
    pub fn message(&self) -> (r: &'static str)
        ensures
            r@ == self.spec_message(),
    {
        match self {
            TranscodeError::TranscodeInitFailed => "Failed to initialize the transcoding session",
            TranscodeError::TranscodeFailed => "Failed to transcode the segment",
            TranscodeError::SegmentNotFound => "Segment not found",
        }
    }

    /// The text of [`TranscodeError::message`].
    pub open spec fn spec_message(self) -> Seq<char> {
        match self {
            TranscodeError::TranscodeInitFailed => "Failed to initialize the transcoding session"@,
            TranscodeError::TranscodeFailed => "Failed to transcode the segment"@,
            TranscodeError::SegmentNotFound => "Segment not found"@,
        }
    }
}

} // verus!
