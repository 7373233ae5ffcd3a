//! Failures of a metadata lookup.

use vstd::prelude::*;
use vstd::string::StringExecFns;

verus! {

/// Why a lookup did not succeed.
#[derive(Debug)]
pub enum MetadataError {
    /// The provider found nothing it could answer with.
    SearchError,
    /// The request to the provider failed; the text says how.
    HttpError(String),
}

impl MetadataError {
    /// The HTTP status that goes with the failure.
    pub open spec fn spec_status(self) -> u16 {
        500
    }

    /// The stable machine-readable code of the failure.
    pub open spec fn spec_code(self) -> Seq<char> {
        match self {
            MetadataError::SearchError => "search_error"@,
            MetadataError::HttpError(_) => "http_error"@,
        }
    }

    /// The human-readable message of the failure.
    pub open spec fn spec_message(self) -> Seq<char> {
        match self {
            MetadataError::SearchError => "Failed to search show"@,
            MetadataError::HttpError(cause) => "Http error: "@ + cause@,
        }
    }

    /// The HTTP status and the machine-readable code of the failure.
    pub fn get_codes(&self) -> (r: (u16, &'static str))
        ensures
            r.0 == self.spec_status(),
            r.1@ == self.spec_code(),
    {
        match self {
            MetadataError::SearchError => (500, "search_error"),
            MetadataError::HttpError(_) => (500, "http_error"),
        }
    }

    /// The human-readable message of the failure.
    pub fn message(&self) -> (r: String)
        ensures
            r@ == self.spec_message(),
    {
        match self {
            MetadataError::SearchError => "Failed to search show".to_owned(),
            MetadataError::HttpError(cause) => {
                let mut text = "Http error: ".to_owned();
                text.append(cause.as_str());
                text
            },
        }
    }
}

} // verus!
