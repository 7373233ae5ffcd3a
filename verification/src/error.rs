//! The failures that reach the HTTP layer, and the body that reports them.

use vstd::prelude::*;
use vstd::string::StringExecFns;

use crate::auth::error::AuthError;
use crate::infrastructure::indexers::error::IndexerError;
use crate::infrastructure::metadata::error::MetadataError;
use crate::infrastructure::torrent::TorrentError as LibTorrentError;
use crate::pattern::capture_pattern;
use crate::pattern::capture_views;
use crate::pattern::lowercased;
use crate::pattern::pattern_captures;
use crate::pattern::replace;
use crate::pattern::replaced;
use crate::pattern::to_lowercase;
use crate::pattern::trim;
use crate::pattern::trimmed;
use crate::stream::error::StreamError;
use crate::torrents::error::TorrentError;
use crate::transcode::error::TranscodeError;
use crate::users::error::UserError;

verus! {

/// One further remark on a failure.
#[derive(Debug)]
pub struct ErrorDetails {
    pub message: String,
    pub code: String,
}

/// The body of a response that reports a failure.
#[derive(Debug)]
pub struct ErrorResponse {
    /// The stable machine-readable code.
    pub code: &'static str,
    /// The human-readable message.
    pub message: String,
    pub details: Option<Vec<ErrorDetails>>,
    /// For a refused form: the fields at fault, each with its reason.
    pub form_errors: Option<Vec<(String, String)>>,
}

/// Every failure that a request can end in.
#[derive(Debug)]
pub enum ApiError {
    Unauthorized,
    BadRequest(String),
    FailedToParseUuid,
    SessionError(String),
    SessionErrorGet(String),
    InternalServerError,
    /// A form was refused; the text lists the fields at fault.
    ValidationError(String),
    MetadataError(MetadataError),
    IndexerError(IndexerError),
    LibTorrentError(LibTorrentError),
    DatabaseError(String),
    TorrentError(TorrentError),
    AuthError(AuthError),
    UserError(UserError),
    StreamError(StreamError),
    TranscodeError(TranscodeError),
}

impl ApiError {
    /// The HTTP status that goes with the failure.
    pub open spec fn spec_status(self) -> u16 {
        match self {
            ApiError::Unauthorized => 401,
            ApiError::BadRequest(_) => 400,
            ApiError::FailedToParseUuid => 400,
            ApiError::SessionError(_) => 401,
            ApiError::SessionErrorGet(_) => 401,
            ApiError::InternalServerError => 500,
            ApiError::ValidationError(_) => 400,
            ApiError::MetadataError(e) => e.spec_status(),
            ApiError::IndexerError(e) => e.spec_status(),
            ApiError::LibTorrentError(e) => e.spec_status(),
            ApiError::DatabaseError(_) => 500,
            ApiError::TorrentError(e) => e.spec_status(),
            ApiError::AuthError(e) => e.spec_status(),
            ApiError::UserError(e) => e.spec_status(),
            ApiError::StreamError(e) => e.spec_status(),
            ApiError::TranscodeError(e) => e.spec_status(),
        }
    }

    /// The stable machine-readable code of the failure.
    pub open spec fn spec_code(self) -> Seq<char> {
        match self {
            ApiError::Unauthorized => "unauthorized"@,
            ApiError::BadRequest(_) => "bad_request"@,
            ApiError::FailedToParseUuid => "uuid_parse_error"@,
            ApiError::SessionError(_) => "session_error"@,
            ApiError::SessionErrorGet(_) => "session_error"@,
            ApiError::InternalServerError => "internal_server_error"@,
            ApiError::ValidationError(_) => "validation_error"@,
            ApiError::MetadataError(e) => e.spec_code(),
            ApiError::IndexerError(e) => e.spec_code(),
            ApiError::LibTorrentError(e) => e.spec_code(),
            ApiError::DatabaseError(_) => "database_error"@,
            ApiError::TorrentError(e) => e.spec_code(),
            ApiError::AuthError(e) => e.spec_code(),
            ApiError::UserError(e) => e.spec_code(),
            ApiError::StreamError(e) => e.spec_code(),
            ApiError::TranscodeError(e) => e.spec_code(),
        }
    }

    /// The human-readable message of the failure.
    pub open spec fn spec_message(self) -> Seq<char> {
        match self {
            ApiError::Unauthorized => "Unauthorized"@,
            ApiError::BadRequest(cause) => "Bad Request: "@ + cause@,
            ApiError::FailedToParseUuid => "Failed to parse uuid"@,
            ApiError::SessionError(cause) => "Session error: "@ + cause@,
            ApiError::SessionErrorGet(cause) => "Session error: "@ + cause@,
            ApiError::InternalServerError => "Internal Server Error"@,
            ApiError::ValidationError(report) => report@,
            ApiError::MetadataError(e) => e.spec_message(),
            ApiError::IndexerError(e) => e.spec_message(),
            ApiError::LibTorrentError(e) => e.spec_message(),
            ApiError::DatabaseError(cause) => "Database Error: "@ + cause@,
            ApiError::TorrentError(e) => e.spec_message(),
            ApiError::AuthError(e) => e.spec_message(),
            ApiError::UserError(e) => e.spec_message(),
            ApiError::StreamError(e) => e.spec_message(),
            ApiError::TranscodeError(e) => e.spec_message(),
        }
    }

    /// The HTTP status and the machine-readable code of the failure.
    pub fn get_codes(&self) -> (r: (u16, &'static str))
        ensures
            r.0 == self.spec_status(),
            r.1@ == self.spec_code(),
    {
        match self {
            ApiError::Unauthorized => (401, "unauthorized"),
            ApiError::BadRequest(_) => (400, "bad_request"),
            ApiError::FailedToParseUuid => (400, "uuid_parse_error"),
            ApiError::SessionError(_) => (401, "session_error"),
            ApiError::SessionErrorGet(_) => (401, "session_error"),
            ApiError::InternalServerError => (500, "internal_server_error"),
            ApiError::ValidationError(_) => (400, "validation_error"),
            ApiError::MetadataError(e) => e.get_codes(),
            ApiError::IndexerError(e) => e.get_codes(),
            ApiError::LibTorrentError(e) => e.get_codes(),
            ApiError::DatabaseError(_) => (500, "database_error"),
            ApiError::TorrentError(e) => e.get_codes(),
            ApiError::AuthError(e) => e.get_codes(),
            ApiError::UserError(e) => e.get_codes(),
            ApiError::StreamError(e) => e.get_codes(),
            ApiError::TranscodeError(e) => e.get_codes(),
        }
    }

    /// The human-readable message of the failure.
    pub fn message(&self) -> (r: String)
        ensures
            r@ == self.spec_message(),
    {
        match self {
            ApiError::Unauthorized => "Unauthorized".to_owned(),
            ApiError::BadRequest(cause) => prefixed("Bad Request: ", cause.as_str()),
            ApiError::FailedToParseUuid => "Failed to parse uuid".to_owned(),
            ApiError::SessionError(cause) => prefixed("Session error: ", cause.as_str()),
            ApiError::SessionErrorGet(cause) => prefixed("Session error: ", cause.as_str()),
            ApiError::InternalServerError => "Internal Server Error".to_owned(),
            ApiError::ValidationError(report) => report.clone(),
            ApiError::MetadataError(e) => e.message(),
            ApiError::IndexerError(e) => e.message().to_owned(),
            ApiError::LibTorrentError(e) => e.message().to_owned(),
            ApiError::DatabaseError(cause) => prefixed("Database Error: ", cause.as_str()),
            ApiError::TorrentError(e) => e.message().to_owned(),
            ApiError::AuthError(e) => e.message().to_owned(),
            ApiError::UserError(e) => e.message().to_owned(),
            ApiError::StreamError(e) => e.message().to_owned(),
            ApiError::TranscodeError(e) => e.message().to_owned(),
        }
    }
}

fn prefixed(prefix: &str, cause: &str) -> (text: String)
    ensures
        text@ == prefix@ + cause@,
{
    let mut text = prefix.to_owned();
    text.append(cause);
    text
}

/// The pattern of one refused field in the report of a refused form: the
/// name of the field, a colon, the reason, and a rule in square brackets.
pub const FIELD_ERROR_PATTERN: &'static str = "(\\w+):\\s*([^\\[]+)\\[.*?\\]";

/// The reason for which a field was refused, as it is reported: the words
/// `Validation error: ` give way to `invalid_`, the white space at the ends
/// is dropped, and the rest is put in lower case.
pub open spec fn reason_of(found: Seq<char>) -> Seq<char> {
    lowercased(trimmed(replaced(found, "Validation error: "@, "invalid_"@)))
}

/// The refused fields among the matches of the pattern, each with its
/// reason, in the order of the matches.
pub open spec fn field_rows(captures: Seq<Seq<Option<Seq<char>>>>) -> Seq<(Seq<char>, Seq<char>)>
    decreases captures.len(),
{
    if captures.len() == 0 {
        Seq::empty()
    } else {
        let rest = field_rows(captures.drop_last());
        let groups = captures.last();
        if groups.len() > 2 && groups[1] is Some && groups[2] is Some {
            rest.push((groups[1]->0, reason_of(groups[2]->0)))
        } else {
            rest
        }
    }
}

/// The refused fields that the report of a refused form names.
pub open spec fn field_errors(description: Seq<char>) -> Option<Seq<(Seq<char>, Seq<char>)>> {
    match pattern_captures("(\\w+):\\s*([^\\[]+)\\[.*?\\]"@, description) {
        Some(captures) => Some(field_rows(captures)),
        None => None,
    }
}

/// Rows of two texts as mathematical values.
pub open spec fn row_views(rows: Seq<(String, String)>) -> Seq<(Seq<char>, Seq<char>)> {
    rows.map_values(|row: (String, String)| (row.0@, row.1@))
}

/// Optional rows of two texts as a mathematical value.
pub open spec fn optional_row_views(rows: Option<Vec<(String, String)>>) -> Option<
    Seq<(Seq<char>, Seq<char>)>,
> {
    match rows {
        Some(rows) => Some(row_views(rows@)),
        None => None,
    }
}

fn reason(found: &str) -> (text: String)
    ensures
        text@ == reason_of(found@),
{
    proof {
        reveal_strlit("Validation error: ");
    }
    let renamed = replace(found, "Validation error: ", "invalid_");
    let bare = trim(renamed.as_str());
    to_lowercase(bare.as_str())
}

/// Reads the refused fields out of the report of a refused form. Where a
/// field is named more than once its last row counts.
pub fn parse_errors(description: &str) -> (rows: Option<Vec<(String, String)>>)
    ensures
        optional_row_views(rows) == field_errors(description@),
{
    let captures = match capture_pattern(FIELD_ERROR_PATTERN, description) {
        Some(captures) => captures,
        None => {
            return None;
        },
    };
    let ghost all = capture_views(captures@);
    let mut rows: Vec<(String, String)> = Vec::new();
    let mut i: usize = 0;
    assert(all.take(0) =~= Seq::empty());
    assert(row_views(rows@) =~= Seq::empty());
    while i < captures.len()
        invariant
            i <= captures.len(),
            all == capture_views(captures@),
            row_views(rows@) == field_rows(all.take(i as int)),
        decreases captures.len() - i,
    {
        proof {
            assert(all.take(i + 1).drop_last() =~= all.take(i as int));
            assert(all.take(i + 1).last() == all[i as int]);
        }
        let groups = &captures[i];
        if groups.len() > 2 {
            match (&groups[1], &groups[2]) {
                (Some(field), Some(found)) => {
                    let ghost before = row_views(rows@);
                    let text = reason(found.as_str());
                    rows.push((field.clone(), text));
                    assert(row_views(rows@) =~= before.push((field@, reason_of(found@))));
                },
                _ => {},
            }
        }
        i = i + 1;
    }
    assert(all.take(captures.len() as int) =~= all);
    Some(rows)
}

/// The response that reports a failure.
#[derive(Debug)]
pub struct ErrorReply {
    /// The HTTP status.
    pub status: u16,
    /// The body.
    pub body: ErrorResponse,
}

impl ApiError {
    /// The response that reports the failure: its status, its code and its
    /// message. A refused form is reported as `Validation error`, with the
    /// fields at fault.
    pub fn error_response(&self) -> (reply: ErrorReply)
        ensures
            reply.status == self.spec_status(),
            reply.body.code@ == self.spec_code(),
            reply.body.details is None,
            match *self {
                ApiError::ValidationError(report) => {
                    &&& reply.body.message@ == "Validation error"@
                    &&& optional_row_views(reply.body.form_errors) == field_errors(report@)
                },
                _ => {
                    &&& reply.body.message@ == self.spec_message()
                    &&& reply.body.form_errors is None
                },
            },
    {
        let (status, code) = self.get_codes();
        let body = match self {
            ApiError::ValidationError(report) => ErrorResponse {
                code,
                message: "Validation error".to_owned(),
                details: None,
                form_errors: parse_errors(report.as_str()),
            },
            _ => ErrorResponse { code, message: self.message(), details: None, form_errors: None },
        };
        ErrorReply { status, body }
    }
}

} // verus!
