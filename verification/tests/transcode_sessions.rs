use hypertube::error::ApiError;
use hypertube::transcode::command::init_command;
use hypertube::transcode::command::ProcessReport;
use hypertube::transcode::error::TranscodeError;
use hypertube::transcode::route::get_init_segment;
use hypertube::transcode::route::get_manifest;
use hypertube::transcode::route::init_segment_file;
use hypertube::transcode::route::manifest_produced;
use hypertube::transcode::route::MANIFEST_CONTENT_TYPE;
use hypertube::transcode::session::init_job;
use hypertube::transcode::session::FileRead;
use hypertube::transcode::session::ManifestDecision;
use hypertube::transcode::session::SessionManager;
use hypertube::transcode::session::SessionState;

const SUCCESS: ProcessReport = ProcessReport { spawned: true, exit_code: Some(0), output_present: true };
const FAILURE: ProcessReport = ProcessReport { spawned: true, exit_code: Some(2), output_present: false };

#[test]
fn first_manifest_request_initialises() {
    let mut manager = SessionManager::new();
    assert_eq!(manager.state_of("s1"), SessionState::Uninitialized);
    match manager.get_manifest("s1") {
        ManifestDecision::Initialize(job) => {
            assert_eq!(job.session_id, "s1");
            assert_eq!(job.directory, "./cache/s1");
            assert_eq!(job.manifest_path, "./cache/s1/start.mpd");
            assert_eq!(
                job.init_segments,
                vec!["./cache/s1/init-stream0.m4s".to_string(), "./cache/s1/init-stream1.m4s".to_string()]
            );
            assert_eq!(job.arguments, init_command("s1", "./downloads/video.mkv"));
        }
        other => panic!("unexpected decision {:?}", other),
    }
    assert_eq!(manager.state_of("s1"), SessionState::Initializing);
    assert_eq!(manager.state_of("s2"), SessionState::Uninitialized);
}

#[test]
fn init_job_alone() {
    let job = init_job("xyz");
    assert_eq!(job.manifest_path, "./cache/xyz/start.mpd");
    assert_eq!(job.arguments.last().unwrap(), "./cache/xyz/start.mpd");
}

#[test]
fn second_manifest_request_is_answered_from_memory() {
    let mut manager = SessionManager::new();
    let mut runs = 0;
    if let ManifestDecision::Initialize(_) = manager.get_manifest("s1") {
        runs += 1;
    }
    let document = b"<MPD>one</MPD>".to_vec();
    let completion = manager.init_finished("s1", &SUCCESS, document.clone());
    assert_eq!(completion.waiters, 0);
    assert_eq!(completion.result, Ok(document.clone()));
    assert_eq!(manager.state_of("s1"), SessionState::Ready);
    for _ in 0..3 {
        match manager.get_manifest("s1") {
            ManifestDecision::Cached { document: cached } => assert_eq!(cached, document),
            ManifestDecision::Initialize(_) => runs += 1,
            ManifestDecision::Wait => panic!("nothing is running"),
        }
    }
    assert_eq!(runs, 1);
}

#[test]
fn requests_during_initialisation_wait() {
    let mut manager = SessionManager::new();
    assert!(matches!(manager.get_manifest("s1"), ManifestDecision::Initialize(_)));
    for _ in 0..4 {
        assert!(matches!(manager.get_manifest("s1"), ManifestDecision::Wait));
    }
    // Another session is initialised on its own.
    assert!(matches!(manager.get_manifest("s2"), ManifestDecision::Initialize(_)));
    let completion = manager.init_finished("s1", &SUCCESS, vec![1, 2, 3]);
    assert_eq!(completion.waiters, 4);
    assert_eq!(completion.result, Ok(vec![1, 2, 3]));
    assert_eq!(manager.state_of("s2"), SessionState::Initializing);
}

#[test]
fn failed_initialisation_is_retried() {
    let mut manager = SessionManager::new();
    assert!(matches!(manager.get_manifest("s1"), ManifestDecision::Initialize(_)));
    assert!(matches!(manager.get_manifest("s1"), ManifestDecision::Wait));
    let completion = manager.init_finished("s1", &FAILURE, Vec::new());
    assert_eq!(completion.waiters, 1);
    assert_eq!(completion.result, Err(TranscodeError::TranscodeInitFailed));
    assert_eq!(manager.state_of("s1"), SessionState::Failed);
    assert!(matches!(manager.get_manifest("s1"), ManifestDecision::Initialize(_)));
    assert_eq!(manager.state_of("s1"), SessionState::Initializing);
    assert_eq!(manager.init_finished("s1", &SUCCESS, vec![9]).result, Ok(vec![9]));
}

#[test]
fn ready_manifest_does_not_change() {
    let mut manager = SessionManager::new();
    manager.get_manifest("s1");
    manager.init_finished("s1", &SUCCESS, vec![1]);
    // A late or repeated report does not replace the document.
    let late = manager.init_finished("s1", &SUCCESS, vec![2]);
    assert_eq!(late.waiters, 0);
    assert_eq!(late.result, Ok(vec![1]));
    let failed = manager.init_finished("s1", &FAILURE, vec![3]);
    assert_eq!(failed.result, Ok(vec![1]));
    assert!(matches!(manager.get_manifest("s1"), ManifestDecision::Cached { document } if document == vec![1]));
}

#[test]
fn report_for_an_unknown_session_fails() {
    let mut manager = SessionManager::new();
    let completion = manager.init_finished("nobody", &SUCCESS, vec![1]);
    assert_eq!(completion.waiters, 0);
    assert_eq!(completion.result, Err(TranscodeError::TranscodeInitFailed));
    assert_eq!(manager.state_of("nobody"), SessionState::Uninitialized);
}

#[test]
fn manifest_routes() {
    let mut manager = SessionManager::new();
    assert!(matches!(get_manifest(&mut manager, "s1"), ManifestDecision::Initialize(_)));
    assert!(matches!(
        manifest_produced(&mut manager, "s1", &FAILURE, Vec::new()),
        Err(ApiError::TranscodeError(TranscodeError::TranscodeInitFailed))
    ));
    assert!(matches!(get_manifest(&mut manager, "s1"), ManifestDecision::Initialize(_)));
    assert_eq!(manifest_produced(&mut manager, "s1", &SUCCESS, vec![7, 8]).unwrap(), vec![7, 8]);
    assert!(matches!(get_manifest(&mut manager, "s1"), ManifestDecision::Cached { .. }));
    assert_eq!(MANIFEST_CONTENT_TYPE, "application/dash+xml");
}

#[test]
fn init_segment_is_served_or_not_found() {
    assert_eq!(init_segment_file("s1", 1), "./cache/s1/init-stream1.m4s");
    assert_eq!(get_init_segment(FileRead::Found(vec![0, 1, 2])).unwrap(), vec![0, 1, 2]);
    assert_eq!(get_init_segment(FileRead::Found(Vec::new())).unwrap(), Vec::<u8>::new());
    assert!(matches!(
        get_init_segment(FileRead::Absent),
        Err(ApiError::TranscodeError(TranscodeError::SegmentNotFound))
    ));
}
