//! Failures of a torrent search.

use vstd::prelude::*;

verus! {

/// Why a search did not succeed.
#[derive(Debug)]
pub enum IndexerError {
    /// The request to the indexer failed; the text says how.
    HttpError(String),
    /// A result carries no magnet link.
    MissingMagnet,
}

impl IndexerError {
    /// The HTTP status that goes with the failure.
    pub open spec fn spec_status(self) -> u16 {
        500
    }

    /// The stable machine-readable code of the failure.
    pub open spec fn spec_code(self) -> Seq<char> {
        match self {
            IndexerError::HttpError(_) => "http_error"@,
            IndexerError::MissingMagnet => "missing_magnet"@,
        }
    }

    /// The human-readable message of the failure.
    pub open spec fn spec_message(self) -> Seq<char> {
        match self {
            IndexerError::HttpError(_) => "Error requesting data from indexer"@,
            IndexerError::MissingMagnet => "Missing magnet link"@,
        }
    }

    /// The HTTP status and the machine-readable code of the failure.
    pub fn get_codes(&self) -> (r: (u16, &'static str))
        ensures
            r.0 == self.spec_status(),
            r.1@ == self.spec_code(),
    {
        match self {
            IndexerError::HttpError(_) => (500, "http_error"),
            IndexerError::MissingMagnet => (500, "missing_magnet"),
        }
    }

    /// The human-readable message of the failure.
    pub fn message(&self) -> (r: &'static str)
        ensures
            r@ == self.spec_message(),
    {
        match self {
            IndexerError::HttpError(_) => "Error requesting data from indexer",
            IndexerError::MissingMagnet => "Missing magnet link",
        }
    }
}

} // verus!
