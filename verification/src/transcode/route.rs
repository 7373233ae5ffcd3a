//! The decisions behind the transcoding endpoints. The caller runs the
//! transcoder, reads and renames files and talks to the client; what to do
//! and what to answer is decided here.

use vstd::prelude::*;

use crate::error::ApiError;
use crate::transcode::command::get_file_for_session;
use crate::transcode::command::init_segment_path;
use crate::transcode::command::init_segment_path_of;
use crate::transcode::command::run_succeeded;
use crate::transcode::command::ProcessReport;
use crate::transcode::error::TranscodeError;
use crate::transcode::segment_cache::action_in;
use crate::transcode::segment_cache::completion_in;
use crate::transcode::segment_cache::job_is_for;
use crate::transcode::segment_cache::published_path;
use crate::transcode::segment_cache::segment_state;
use crate::transcode::segment_cache::table_after_completion;
use crate::transcode::segment_cache::table_after_request;
use crate::transcode::segment_cache::SegmentCache;
use crate::transcode::segment_cache::SegmentDecision;
use crate::transcode::segment_cache::SegmentKey;
use crate::transcode::session::init_completion_in;
use crate::transcode::session::init_job_is_for;
use crate::transcode::session::init_segment_answer;
use crate::transcode::session::manifest_action_in;
use crate::transcode::session::session_state;
use crate::transcode::session::sessions_after_init;
use crate::transcode::session::sessions_after_request;
use crate::transcode::session::source_of;
use crate::transcode::session::FileRead;
use crate::transcode::session::ManifestDecision;
use crate::transcode::session::SessionManager;

verus! {

/// The media type of a manifest.
pub const MANIFEST_CONTENT_TYPE: &'static str = "application/dash+xml";

/// The media type of init segments and media segments.
pub const SEGMENT_CONTENT_TYPE: &'static str = "application/octet-stream";

/// Takes a request for the manifest of a session; see
/// [`SessionManager::get_manifest`].
pub fn get_manifest(manager: &mut SessionManager, session_id: &str) -> (decision: ManifestDecision)
    requires
        old(manager).wf(),
    ensures
        final(manager).wf(),
        final(manager)@ == sessions_after_request(old(manager)@, session_id@),
        decision.action() == manifest_action_in(session_state(old(manager)@, session_id@)),
        decision matches ManifestDecision::Cached { document } ==> document@ == old(
            manager,
        )@[session_id@].manifest->0.document,
        decision matches ManifestDecision::Initialize(job) ==> init_job_is_for(job, session_id@),
{
    manager.get_manifest(session_id)
}

/// Takes the report of the run that initialised a session, and gives what
/// the starter and every waiting request are answered with: the manifest
/// document, or `TranscodeInitFailed`.
pub fn manifest_produced(
    manager: &mut SessionManager,
    session_id: &str,
    report: &ProcessReport,
    document: Vec<u8>,
) -> (answer: Result<Vec<u8>, ApiError>)
    requires
        old(manager).wf(),
    ensures
        final(manager).wf(),
        final(manager)@ == sessions_after_init(
            old(manager)@,
            session_id@,
            run_succeeded(*report),
            document@,
        ),
        match answer {
            Ok(bytes) => init_completion_in(
                old(manager)@,
                session_id@,
                run_succeeded(*report),
                document@,
            ).result == Ok::<Seq<u8>, TranscodeError>(bytes@),
            Err(e) => {
                &&& init_completion_in(
                    old(manager)@,
                    session_id@,
                    run_succeeded(*report),
                    document@,
                ).result is Err
                &&& e == ApiError::TranscodeError(TranscodeError::TranscodeInitFailed)
            },
        },
{
    let completion = manager.init_finished(session_id, report, document);
    match completion.result {
        Ok(bytes) => Ok(bytes),
        Err(e) => Err(ApiError::TranscodeError(e)),
    }
}

/// Where the init segment of a representation of a session is read from.
pub fn init_segment_file(session_id: &str, representation_id: u32) -> (path: String)
    ensures
        path@ == init_segment_path(session_id@, representation_id),
{
    init_segment_path_of(session_id, representation_id)
}

/// Answers a request for an init segment from what reading its file gave:
/// the bytes as they are, or `SegmentNotFound` when the file is not there.
pub fn get_init_segment(read: FileRead) -> (answer: Result<Vec<u8>, ApiError>)
    ensures
        match answer {
            Ok(bytes) => init_segment_answer(read) == Ok::<Seq<u8>, TranscodeError>(bytes@),
            Err(e) => read is Absent && e == ApiError::TranscodeError(
                TranscodeError::SegmentNotFound,
            ),
        },
{
    match read {
        FileRead::Found(bytes) => Ok(bytes),
        FileRead::Absent => Err(ApiError::TranscodeError(TranscodeError::SegmentNotFound)),
    }
}

/// Takes a request for a media segment: a published segment is served, a
/// segment in production is waited for, and any other segment is put in
/// production by this request, from the source file of its session.
pub fn get_segment(cache: &mut SegmentCache, key: &SegmentKey) -> (decision: SegmentDecision)
    requires
        old(cache).wf(),
    ensures
        final(cache).wf(),
        final(cache)@ == table_after_request(old(cache)@, key@),
        decision.action() == action_in(segment_state(old(cache)@, key@)),
        decision matches SegmentDecision::Serve { file_path } ==> file_path@ == published_path(key@),
        decision matches SegmentDecision::Produce(job) ==> job_is_for(
            job,
            key@,
            source_of(key@.session_id),
        ),
{
    let source = get_file_for_session(key.session_id.as_str()).unwrap();
    cache.request(key, source.as_str())
}

/// Takes the report of the run that produced a media segment, and gives
/// what the starter and every attached request are answered with: the
/// published file to read, or `TranscodeFailed`.
pub fn segment_produced(cache: &mut SegmentCache, key: &SegmentKey, report: &ProcessReport) -> (answer:
    Result<String, ApiError>)
    requires
        old(cache).wf(),
    ensures
        final(cache).wf(),
        final(cache)@ == table_after_completion(old(cache)@, key@, run_succeeded(*report)),
        match answer {
            Ok(path) => completion_in(old(cache)@, key@, run_succeeded(*report)).result == Ok::<
                Seq<char>,
                TranscodeError,
            >(path@),
            Err(e) => {
                &&& completion_in(old(cache)@, key@, run_succeeded(*report)).result is Err
                &&& e == ApiError::TranscodeError(TranscodeError::TranscodeFailed)
            },
        },
{
    let completion = cache.complete(key, report);
    match completion.result {
        Ok(path) => Ok(path),
        Err(e) => Err(ApiError::TranscodeError(e)),
    }
}

} // verus!
