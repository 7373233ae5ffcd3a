use hypertube::auth::error::AuthError;
use hypertube::error::parse_errors;
use hypertube::error::ApiError;
use hypertube::infrastructure::indexers::error::IndexerError;
use hypertube::infrastructure::metadata::error::MetadataError;
use hypertube::infrastructure::torrent::TorrentError as LibTorrentError;
use hypertube::stream::error::StreamError;
use hypertube::torrents::error::add_torrent_with_magnet;
use hypertube::torrents::error::AddOutcome;
use hypertube::torrents::error::TorrentError;
use hypertube::transcode::error::TranscodeError;
use hypertube::users::error::DatabaseFailure;
use hypertube::users::error::UserError;

#[test]
fn lookup_failures_have_stable_codes() {
    assert_eq!(LibTorrentError::InvalidHash.get_codes(), (400, "invalid_hash"));
    assert_eq!(LibTorrentError::TorrentNotFound.get_codes(), (404, "torrent_not_found"));
    assert_eq!(LibTorrentError::InvalidLengths.get_codes(), (500, "invalid_lengths"));
    assert_eq!(LibTorrentError::FileNotFound.get_codes(), (404, "file_not_found"));
    assert_eq!(LibTorrentError::InvalidHash.message(), "Invalid torrents hash");
    assert_eq!(LibTorrentError::TorrentNotFound.message(), "Torrent not found");
    assert_eq!(LibTorrentError::InvalidLengths.message(), "Invalid lengths");
    assert_eq!(LibTorrentError::FileNotFound.message(), "File not found");
}

#[test]
fn stream_failure_codes() {
    assert_eq!(StreamError::StreamUnavailable.get_codes(), (500, "failed_to_acquire_stream"));
    assert_eq!(StreamError::StreamUnavailable.message(), "Failed to acquire stream");
}

#[test]
fn torrent_failure_codes() {
    assert_eq!(TorrentError::AddTorrentError.get_codes(), (500, "add_torrent_error"));
    assert_eq!(TorrentError::TorrentAlreadyAdded.get_codes(), (409, "torrent_already_added"));
    assert_eq!(
        TorrentError::TorrentInitializationFailed.get_codes(),
        (500, "torrent_initialization_failed")
    );
    assert_eq!(TorrentError::FailedToAcquireStream.get_codes(), (500, "failed_to_acquire_stream"));
    assert_eq!(TorrentError::TorrentAlreadyAdded.message(), "Torrent already added");
}

#[test]
fn adding_a_torrent() {
    assert_eq!(add_torrent_with_magnet(AddOutcome::Added), Ok(()));
    assert_eq!(
        add_torrent_with_magnet(AddOutcome::AlreadyManaged),
        Err(TorrentError::TorrentAlreadyAdded)
    );
    assert_eq!(add_torrent_with_magnet(AddOutcome::ListOnly), Err(TorrentError::AddTorrentError));
    assert_eq!(add_torrent_with_magnet(AddOutcome::Failed), Err(TorrentError::AddTorrentError));
}

#[test]
fn auth_failure_codes() {
    assert_eq!(AuthError::Unauthorized.get_codes(), (401, "unauthorized"));
    assert_eq!(AuthError::InvalidCredentials.get_codes(), (401, "invalid_credentials"));
    assert_eq!(AuthError::FailedToCreateToken.get_codes(), (500, "failed_to_create_token"));
    assert_eq!(AuthError::FailedToValidateToken.get_codes(), (500, "failed_to_validate_token"));
    assert_eq!(AuthError::FailedToRequestToken.get_codes(), (500, "failed_to_request_token"));
    assert_eq!(
        AuthError::FailedToRequestUserInfo.get_codes(),
        (500, "failed_to_request_user_info")
    );
    assert_eq!(AuthError::InvalidProvider.get_codes(), (500, "invalid_provider"));
    assert_eq!(AuthError::FailedToRequestUserInfo.message(), "Failed to request users info");
}

#[test]
fn user_failure_codes() {
    assert_eq!(UserError::UserNotFound.get_codes(), (404, "user_not_found"));
    assert_eq!(UserError::UserAlreadyExists.get_codes(), (409, "user_already_exists"));
    assert_eq!(UserError::DatabaseError.get_codes(), (500, "database_error"));
    assert_eq!(UserError::UserNotFound.message(), "User not found");
}

#[test]
fn database_failures_become_user_failures() {
    assert_eq!(UserError::from(DatabaseFailure::RowNotFound), UserError::UserNotFound);
    assert_eq!(UserError::from(DatabaseFailure::Other), UserError::DatabaseError);
    assert_eq!(
        UserError::from(DatabaseFailure::Database { constraint: None }),
        UserError::DatabaseError
    );
    assert_eq!(
        UserError::from(DatabaseFailure::Database { constraint: Some("user_email".to_string()) }),
        UserError::UserAlreadyExists
    );
    assert_eq!(
        UserError::from(DatabaseFailure::Database {
            constraint: Some("user_username".to_string())
        }),
        UserError::UserAlreadyExists
    );
    assert_eq!(
        UserError::from(DatabaseFailure::Database { constraint: Some("user_id".to_string()) }),
        UserError::DatabaseError
    );
    assert_eq!(
        UserError::from(DatabaseFailure::Database { constraint: Some("USER_EMAIL".to_string()) }),
        UserError::DatabaseError
    );
}

#[test]
fn indexer_and_metadata_failure_codes() {
    assert_eq!(IndexerError::MissingMagnet.get_codes(), (500, "missing_magnet"));
    assert_eq!(IndexerError::HttpError("x".to_string()).get_codes(), (500, "http_error"));
    assert_eq!(IndexerError::MissingMagnet.message(), "Missing magnet link");
    assert_eq!(MetadataError::SearchError.get_codes(), (500, "search_error"));
    assert_eq!(MetadataError::HttpError("x".to_string()).get_codes(), (500, "http_error"));
    assert_eq!(MetadataError::SearchError.message(), "Failed to search show");
    assert_eq!(MetadataError::HttpError("timeout".to_string()).message(), "Http error: timeout");
}

#[test]
fn api_failure_codes() {
    assert_eq!(ApiError::Unauthorized.get_codes(), (401, "unauthorized"));
    assert_eq!(ApiError::BadRequest("x".to_string()).get_codes(), (400, "bad_request"));
    assert_eq!(ApiError::FailedToParseUuid.get_codes(), (400, "uuid_parse_error"));
    assert_eq!(ApiError::SessionError("x".to_string()).get_codes(), (401, "session_error"));
    assert_eq!(ApiError::SessionErrorGet("x".to_string()).get_codes(), (401, "session_error"));
    assert_eq!(ApiError::InternalServerError.get_codes(), (500, "internal_server_error"));
    assert_eq!(ApiError::ValidationError("x".to_string()).get_codes(), (400, "validation_error"));
    assert_eq!(ApiError::DatabaseError("x".to_string()).get_codes(), (500, "database_error"));
    assert_eq!(
        ApiError::LibTorrentError(LibTorrentError::InvalidHash).get_codes(),
        (400, "invalid_hash")
    );
    assert_eq!(
        ApiError::LibTorrentError(LibTorrentError::TorrentNotFound).get_codes(),
        (404, "torrent_not_found")
    );
    assert_eq!(
        ApiError::StreamError(StreamError::StreamUnavailable).get_codes(),
        (500, "failed_to_acquire_stream")
    );
    assert_eq!(
        ApiError::TranscodeError(TranscodeError::TranscodeInitFailed).get_codes(),
        (500, "transcode_init_failed")
    );
    assert_eq!(
        ApiError::TranscodeError(TranscodeError::TranscodeFailed).get_codes(),
        (500, "transcode_failed")
    );
    assert_eq!(
        ApiError::TranscodeError(TranscodeError::SegmentNotFound).get_codes(),
        (404, "segment_not_found")
    );
    assert_eq!(
        ApiError::TorrentError(TorrentError::TorrentAlreadyAdded).get_codes(),
        (409, "torrent_already_added")
    );
    assert_eq!(ApiError::AuthError(AuthError::InvalidProvider).get_codes(), (500, "invalid_provider"));
    assert_eq!(ApiError::UserError(UserError::UserNotFound).get_codes(), (404, "user_not_found"));
    assert_eq!(ApiError::MetadataError(MetadataError::SearchError).get_codes(), (500, "search_error"));
    assert_eq!(ApiError::IndexerError(IndexerError::MissingMagnet).get_codes(), (500, "missing_magnet"));
}

#[test]
fn api_failure_messages() {
    assert_eq!(ApiError::Unauthorized.message(), "Unauthorized");
    assert_eq!(ApiError::BadRequest("no body".to_string()).message(), "Bad Request: no body");
    assert_eq!(ApiError::FailedToParseUuid.message(), "Failed to parse uuid");
    assert_eq!(ApiError::SessionError("gone".to_string()).message(), "Session error: gone");
    assert_eq!(ApiError::SessionErrorGet("gone".to_string()).message(), "Session error: gone");
    assert_eq!(ApiError::InternalServerError.message(), "Internal Server Error");
    assert_eq!(ApiError::ValidationError("as is".to_string()).message(), "as is");
    assert_eq!(ApiError::DatabaseError("locked".to_string()).message(), "Database Error: locked");
    assert_eq!(
        ApiError::TranscodeError(TranscodeError::TranscodeFailed).message(),
        "Failed to transcode the segment"
    );
    assert_eq!(
        ApiError::MetadataError(MetadataError::HttpError("x".to_string())).message(),
        "Http error: x"
    );
}

#[test]
fn failure_response_carries_status_code_and_message() {
    let reply = ApiError::LibTorrentError(LibTorrentError::TorrentNotFound).error_response();
    assert_eq!(reply.status, 404);
    assert_eq!(reply.body.code, "torrent_not_found");
    assert_eq!(reply.body.message, "Torrent not found");
    assert!(reply.body.details.is_none());
    assert!(reply.body.form_errors.is_none());
    let reply = ApiError::BadRequest("bad path".to_string()).error_response();
    assert_eq!(reply.status, 400);
    assert_eq!(reply.body.code, "bad_request");
    assert_eq!(reply.body.message, "Bad Request: bad path");
}

#[test]
fn refused_form_response_lists_the_fields() {
    let report = "username: Validation error: length is lower than 3 [min=3]\npassword: Length Is Lower Than 8  [min=8]\n";
    let reply = ApiError::ValidationError(report.to_string()).error_response();
    assert_eq!(reply.status, 400);
    assert_eq!(reply.body.code, "validation_error");
    assert_eq!(reply.body.message, "Validation error");
    assert_eq!(
        reply.body.form_errors,
        Some(vec![
            ("username".to_string(), "invalid_length is lower than 3".to_string()),
            ("password".to_string(), "length is lower than 8".to_string()),
        ])
    );
}

#[test]
fn report_without_fields_gives_no_rows() {
    assert_eq!(parse_errors(""), Some(Vec::new()));
    assert_eq!(parse_errors("nothing to see"), Some(Vec::new()));
    assert_eq!(parse_errors("email: not an address"), Some(Vec::new()));
    assert_eq!(
        parse_errors("email: not an address [email]"),
        Some(vec![("email".to_string(), "not an address".to_string())])
    );
}
