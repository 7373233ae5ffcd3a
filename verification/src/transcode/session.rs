//! Transcode sessions and the lifecycle of their manifests. A session is
//! created when its manifest is first asked for. One request initialises
//! it; requests that arrive meanwhile wait for that initialisation, and once
//! it has succeeded the manifest is answered from memory.
//!
//! The manager decides; it performs no I/O. The caller runs the transcoder
//! when told to, and reports how the run ended.

use vstd::prelude::*;

use crate::transcode::command::check_run;
use crate::transcode::command::get_file_for_session;
use crate::transcode::command::init_arguments;
use crate::transcode::command::init_command;
use crate::transcode::command::init_segment_path;
use crate::transcode::command::init_segment_path_of;
use crate::transcode::command::manifest_path;
use crate::transcode::command::manifest_path_of;
use crate::transcode::command::run_succeeded;
use crate::transcode::command::session_dir;
use crate::transcode::command::session_dir_of;
use crate::transcode::command::texts;
use crate::transcode::command::ProcessReport;
use crate::transcode::error::TranscodeError;
use crate::transcode::segment_cache::one_more;
use crate::table::is_last_row_of;
use crate::table::lemma_table_absent;
use crate::table::lemma_table_lookup;
use crate::table::lemma_table_push;
use crate::table::lemma_table_update;
use crate::table::table_map;

verus! {

/// Representation of the video track.
pub const VIDEO_REPRESENTATION: u32 = 0;

/// Representation of the audio track.
pub const AUDIO_REPRESENTATION: u32 = 1;

/// Where a session stands.
#[derive(Clone, Copy, Debug, PartialEq, Eq, Structural)]
pub enum SessionState {
    /// The manifest has never been asked for.
    Uninitialized,
    /// One transcoder run is producing the manifest and the init segments.
    Initializing,
    /// The manifest is held in memory and the init segments are on disk.
    Ready,
    /// The last initialisation failed. The next request starts a new one.
    Failed,
}

/// One transcode session: what it reads and where it writes.
#[derive(Debug)]
pub struct TranscodeSession {
    pub session_id: String,
    pub source_file: String,
    pub cache_dir: String,
}

/// The manifest of an initialised session.
#[derive(Debug)]
pub struct Manifest {
    pub session_id: String,
    /// The manifest document, byte for byte as the transcoder wrote it.
    pub document: Vec<u8>,
    /// The init segment of each representation, video first.
    pub init_segments: Vec<String>,
}

/// A [`Manifest`] as a mathematical value.
pub struct ManifestView {
    pub session_id: Seq<char>,
    pub document: Seq<u8>,
    pub init_segments: Seq<Seq<char>>,
}

impl View for Manifest {
    type V = ManifestView;

    open spec fn view(&self) -> ManifestView {
        ManifestView {
            session_id: self.session_id@,
            document: self.document@,
            init_segments: texts(self.init_segments@),
        }
    }
}

/// What the manager holds of one session, as a mathematical value.
pub struct SessionRecord {
    pub state: SessionState,
    pub source_file: Seq<char>,
    pub cache_dir: Seq<char>,
    /// The manifest, when the session is `Ready`.
    pub manifest: Option<ManifestView>,
    /// Requests that wait for the running initialisation, its starter not
    /// counted.
    pub waiters: nat,
}

/// The manager as a mathematical value: sessions by their id.
pub type SessionTable = Map<Seq<char>, SessionRecord>;

/// One row of the manager.
#[derive(Debug)]
pub struct SessionEntry {
    pub session: TranscodeSession,
    pub state: SessionState,
    pub manifest: Option<Manifest>,
    pub waiters: u64,
}

impl SessionEntry {
    /// What the row holds, without the session's id.
    pub open spec fn record(&self) -> SessionRecord {
        SessionRecord {
            state: self.state,
            source_file: self.session.source_file@,
            cache_dir: self.session.cache_dir@,
            manifest: match self.manifest {
                Some(m) => Some(m@),
                None => None,
            },
            waiters: self.waiters as nat,
        }
    }
}

/// What a request for a manifest is told to do.
#[derive(Clone, Copy, Debug, PartialEq, Eq, Structural)]
pub enum ManifestAction {
    /// Answer with the manifest held in memory.
    Cached,
    /// Wait for the initialisation that is running, and take its result.
    Wait,
    /// Run the transcoder, then report to [`SessionManager::init_finished`].
    Initialize,
}

/// Everything needed to initialise one session.
#[derive(Debug)]
pub struct InitJob {
    pub session_id: String,
    /// The directory to create, if missing, before the run.
    pub directory: String,
    /// The transcoder's arguments.
    pub arguments: Vec<String>,
    /// The manifest document that the run writes.
    pub manifest_path: String,
    /// The init segments that the run writes, video first.
    pub init_segments: Vec<String>,
}

/// What a request for a manifest is told to do, with what it needs for it.
#[derive(Debug)]
pub enum ManifestDecision {
    Cached { document: Vec<u8> },
    Wait,
    Initialize(InitJob),
}

impl ManifestDecision {
    /// The action without its payload.
    pub open spec fn action(self) -> ManifestAction {
        match self {
            ManifestDecision::Cached { .. } => ManifestAction::Cached,
            ManifestDecision::Wait => ManifestAction::Wait,
            ManifestDecision::Initialize(_) => ManifestAction::Initialize,
        }
    }
}

/// How an initialisation ended, for its starter and for everyone who waited.
#[derive(Debug)]
pub struct InitCompletion {
    /// How many waiting requests are released with `result`.
    pub waiters: u64,
    /// The manifest document, or the failure.
    pub result: Result<Vec<u8>, TranscodeError>,
}

/// An [`InitCompletion`] as a mathematical value.
pub struct InitCompletionView {
    pub waiters: nat,
    pub result: Result<Seq<u8>, TranscodeError>,
}

impl View for InitCompletion {
    type V = InitCompletionView;

    open spec fn view(&self) -> InitCompletionView {
        InitCompletionView {
            waiters: self.waiters as nat,
            result: match self.result {
                Ok(document) => Ok(document@),
                Err(e) => Err(e),
            },
        }
    }
}

/// The source file of every session.
pub open spec fn source_of(session_id: Seq<char>) -> Seq<char> {
    "./downloads/video.mkv"@
}

/// The init segments of a session, video first.
pub open spec fn init_segments_of(session_id: Seq<char>) -> Seq<Seq<char>> {
    seq![
        init_segment_path(session_id, VIDEO_REPRESENTATION),
        init_segment_path(session_id, AUDIO_REPRESENTATION),
    ]
}

/// The state of a session; `Uninitialized` for one the manager has never seen.
pub open spec fn session_state(table: SessionTable, session_id: Seq<char>) -> SessionState {
    if table.dom().contains(session_id) {
        table[session_id].state
    } else {
        SessionState::Uninitialized
    }
}

/// What a request for the manifest of a session in the given state is told
/// to do.
pub open spec fn manifest_action_in(state: SessionState) -> ManifestAction {
    match state {
        SessionState::Ready => ManifestAction::Cached,
        SessionState::Initializing => ManifestAction::Wait,
        SessionState::Uninitialized => ManifestAction::Initialize,
        SessionState::Failed => ManifestAction::Initialize,
    }
}

/// The manager after a request for the manifest of `session_id`.
pub open spec fn sessions_after_request(table: SessionTable, session_id: Seq<char>) -> SessionTable {
    match session_state(table, session_id) {
        SessionState::Ready => table,
        SessionState::Initializing => table.insert(
            session_id,
            SessionRecord { waiters: one_more(table[session_id].waiters), ..table[session_id] },
        ),
        _ => table.insert(
            session_id,
            SessionRecord {
                state: SessionState::Initializing,
                source_file: source_of(session_id),
                cache_dir: session_dir(session_id),
                manifest: None,
                waiters: 0,
            },
        ),
    }
}

/// The manifest that a successful initialisation leaves.
pub open spec fn manifest_of(session_id: Seq<char>, document: Seq<u8>) -> ManifestView {
    ManifestView { session_id, document, init_segments: init_segments_of(session_id) }
}

/// The manager after the initialisation of `session_id` has been reported,
/// `document` being what the run wrote as the manifest. A report for a
/// session that is not being initialised changes nothing.
pub open spec fn sessions_after_init(
    table: SessionTable,
    session_id: Seq<char>,
    succeeded: bool,
    document: Seq<u8>,
) -> SessionTable {
    if session_state(table, session_id) == SessionState::Initializing {
        table.insert(
            session_id,
            SessionRecord {
                state: if succeeded {
                    SessionState::Ready
                } else {
                    SessionState::Failed
                },
                manifest: if succeeded {
                    Some(manifest_of(session_id, document))
                } else {
                    None
                },
                waiters: 0,
                ..table[session_id]
            },
        )
    } else {
        table
    }
}

/// What the starter of the initialisation of `session_id`, and everyone who
/// waited for it, receives once the initialisation has been reported.
pub open spec fn init_completion_in(
    table: SessionTable,
    session_id: Seq<char>,
    succeeded: bool,
    document: Seq<u8>,
) -> InitCompletionView {
    match session_state(table, session_id) {
        SessionState::Initializing => InitCompletionView {
            waiters: table[session_id].waiters,
            result: if succeeded {
                Ok(document)
            } else {
                Err(TranscodeError::TranscodeInitFailed)
            },
        },
        SessionState::Ready => InitCompletionView {
            waiters: 0,
            result: Ok(table[session_id].manifest->0.document),
        },
        _ => InitCompletionView { waiters: 0, result: Err(TranscodeError::TranscodeInitFailed) },
    }
}

/// What holds of everything the manager keeps of the session `session_id`:
/// it reads its source and writes under its own directory, and it holds a
/// manifest, which is its own, exactly when it is `Ready`.
pub open spec fn record_wf(session_id: Seq<char>, record: SessionRecord) -> bool {
    &&& record.source_file == source_of(session_id)
    &&& record.cache_dir == session_dir(session_id)
    &&& record.manifest is Some <==> record.state == SessionState::Ready
    &&& record.manifest matches Some(manifest) ==> {
        &&& manifest.session_id == session_id
        &&& manifest.init_segments == init_segments_of(session_id)
    }
}

/// [`record_wf`] holds of every session.
pub open spec fn sessions_wf(table: SessionTable) -> bool {
    forall|id: Seq<char>| #[trigger] table.dom().contains(id) ==> record_wf(id, table[id])
}

/// True when `job` is the initialisation of `session_id`.
pub open spec fn init_job_is_for(job: InitJob, session_id: Seq<char>) -> bool {
    &&& job.session_id@ == session_id
    &&& job.directory@ == session_dir(session_id)
    &&& texts(job.arguments@) == init_arguments(session_id, source_of(session_id))
    &&& job.manifest_path@ == manifest_path(session_id)
    &&& texts(job.init_segments@) == init_segments_of(session_id)
}

fn copy_bytes(bytes: &Vec<u8>) -> (copy: Vec<u8>)
    ensures
        copy@ == bytes@,
{
    let copy = bytes.clone();
    assert(copy@ =~= bytes@);
    copy
}

fn init_segment_paths(session_id: &str) -> (paths: Vec<String>)
    ensures
        texts(paths@) == init_segments_of(session_id@),
{
    let mut paths: Vec<String> = Vec::new();
    paths.push(init_segment_path_of(session_id, VIDEO_REPRESENTATION));
    paths.push(init_segment_path_of(session_id, AUDIO_REPRESENTATION));
    assert(texts(paths@) =~= init_segments_of(session_id@));
    paths
}

/// Everything needed to initialise the session `session_id`.
pub fn init_job(session_id: &str) -> (job: InitJob)
    ensures
        init_job_is_for(job, session_id@),
{
    let source = get_file_for_session(session_id).unwrap();
    InitJob {
        session_id: session_id.to_owned(),
        directory: session_dir_of(session_id),
        arguments: init_command(session_id, source.as_str()),
        manifest_path: manifest_path_of(session_id),
        init_segments: init_segment_paths(session_id),
    }
}

/// The sessions of the process.
pub struct SessionManager {
    entries: Vec<SessionEntry>,
}

impl SessionManager {
    spec fn rows(&self) -> Seq<(Seq<char>, SessionRecord)> {
        self.entries@.map_values(|e: SessionEntry| (e.session.session_id@, e.record()))
    }

    /// The manager as a map from session ids to what is held of them.
    pub closed spec fn view(&self) -> SessionTable {
        table_map(self.rows())
    }

    /// The invariant of the manager.
    pub open spec fn wf(&self) -> bool {
        sessions_wf(self@)
    }

    /// A manager without sessions.
    pub fn new() -> (manager: SessionManager)
        ensures
            manager@ == Map::<Seq<char>, SessionRecord>::empty(),
            manager.wf(),
    {
        let manager = SessionManager { entries: Vec::new() };
        assert(manager.rows() =~= Seq::empty());
        manager
    }

    fn find(&self, session_id: &str) -> (found: Option<usize>)
        ensures
            match found {
                Some(i) => {
                    &&& i < self.entries.len()
                    &&& is_last_row_of(self.rows(), i as int, session_id@)
                    &&& self@.dom().contains(session_id@)
                    &&& self@[session_id@] == self.entries[i as int].record()
                },
                None => !self@.dom().contains(session_id@),
            },
    {
        let wanted = session_id.to_owned();
        let mut i: usize = self.entries.len();
        while i > 0
            invariant
                i <= self.entries.len(),
                wanted@ == session_id@,
                forall|j: int|
                    i <= j < self.entries.len() ==> (#[trigger] self.rows()[j]).0 != session_id@,
            decreases i,
        {
            i = i - 1;
            if self.entries[i].session.session_id == wanted {
                proof {
                    lemma_table_lookup(self.rows(), i as int, session_id@);
                }
                return Some(i);
            }
        }
        proof {
            lemma_table_absent(self.rows(), session_id@);
        }
        None
    }

    /// The state of a session.
    pub fn state_of(&self, session_id: &str) -> (state: SessionState)
        ensures
            state == session_state(self@, session_id@),
    {
        match self.find(session_id) {
            Some(i) => self.entries[i].state,
            None => SessionState::Uninitialized,
        }
    }

    fn initializing_entry(session_id: &str) -> (entry: SessionEntry)
        ensures
            entry.session.session_id@ == session_id@,
            entry.record() == (SessionRecord {
                state: SessionState::Initializing,
                source_file: source_of(session_id@),
                cache_dir: session_dir(session_id@),
                manifest: None,
                waiters: 0,
            }),
    {
        SessionEntry {
            session: TranscodeSession {
                session_id: session_id.to_owned(),
                source_file: get_file_for_session(session_id).unwrap(),
                cache_dir: session_dir_of(session_id),
            },
            state: SessionState::Initializing,
            manifest: None,
            waiters: 0,
        }
    }

    /// Takes a request for the manifest of `session_id`: the manifest of a
    /// ready session is answered from memory, an initialisation that is
    /// running is waited for, and any other session is initialised by this
    /// request.
    pub fn get_manifest(&mut self, session_id: &str) -> (decision: ManifestDecision)
        requires
            old(self).wf(),
        ensures
            final(self).wf(),
            final(self)@ == sessions_after_request(old(self)@, session_id@),
            decision.action() == manifest_action_in(session_state(old(self)@, session_id@)),
            decision matches ManifestDecision::Cached { document } ==> document@ == old(
                self,
            )@[session_id@].manifest->0.document,
            decision matches ManifestDecision::Initialize(job) ==> init_job_is_for(job, session_id@),
    {
        let ghost before = self.rows();
        match self.find(session_id) {
            Some(i) => {
                let state = self.entries[i].state;
                match state {
                    SessionState::Ready => {
                        match &self.entries[i].manifest {
                            Some(manifest) => ManifestDecision::Cached {
                                document: copy_bytes(&manifest.document),
                            },
                            None => vstd::pervasive::unreached(),
                        }
                    },
                    SessionState::Initializing => {
                        let waiters = self.entries[i].waiters;
                        let more = if waiters < u64::MAX {
                            waiters + 1
                        } else {
                            waiters
                        };
                        let ghost record = SessionRecord {
                            waiters: one_more(old(self)@[session_id@].waiters),
                            ..old(self)@[session_id@]
                        };
                        self.entries[i].waiters = more;
                        proof {
                            assert(self.rows() =~= before.update(i as int, (session_id@, record)));
                            lemma_table_update(before, i as int, session_id@, record);
                        }
                        ManifestDecision::Wait
                    },
                    _ => {
                        let entry = Self::initializing_entry(session_id);
                        let ghost record = entry.record();
                        self.entries.set(i, entry);
                        proof {
                            assert(self.rows() =~= before.update(i as int, (session_id@, record)));
                            lemma_table_update(before, i as int, session_id@, record);
                        }
                        ManifestDecision::Initialize(init_job(session_id))
                    },
                }
            },
            None => {
                let entry = Self::initializing_entry(session_id);
                let ghost record = entry.record();
                self.entries.push(entry);
                proof {
                    assert(self.rows() =~= before.push((session_id@, record)));
                    lemma_table_push(before, session_id@, record);
                }
                ManifestDecision::Initialize(init_job(session_id))
            },
        }
    }

    /// Takes the report of the run that initialised `session_id`, with the
    /// manifest document as read back from disk. After a successful run the
    /// session is `Ready` and keeps the document; after any other it has
    /// failed, and the next request initialises it anew. Either way the
    /// starter and every waiting request receive the one result returned
    /// here.
    pub fn init_finished(
        &mut self,
        session_id: &str,
        report: &ProcessReport,
        document: Vec<u8>,
    ) -> (completion: InitCompletion)
        requires
            old(self).wf(),
        ensures
            final(self).wf(),
            final(self)@ == sessions_after_init(
                old(self)@,
                session_id@,
                run_succeeded(*report),
                document@,
            ),
            completion@ == init_completion_in(
                old(self)@,
                session_id@,
                run_succeeded(*report),
                document@,
            ),
    {
        let ghost before = self.rows();
        let succeeded = check_run(report);
        match self.find(session_id) {
            Some(i) => {
                let state = self.entries[i].state;
                match state {
                    SessionState::Initializing => {
                        let waiters = self.entries[i].waiters;
                        let ghost record = sessions_after_init(
                            old(self)@,
                            session_id@,
                            succeeded,
                            document@,
                        )[session_id@];
                        if succeeded {
                            let manifest = Manifest {
                                session_id: session_id.to_owned(),
                                document: copy_bytes(&document),
                                init_segments: init_segment_paths(session_id),
                            };
                            self.entries[i].state = SessionState::Ready;
                            self.entries[i].manifest = Some(manifest);
                            self.entries[i].waiters = 0;
                        } else {
                            self.entries[i].state = SessionState::Failed;
                            self.entries[i].waiters = 0;
                        }
                        proof {
                            assert(self.rows() =~= before.update(i as int, (session_id@, record)));
                            lemma_table_update(before, i as int, session_id@, record);
                        }
                        InitCompletion {
                            waiters,
                            result: if succeeded {
                                Ok(document)
                            } else {
                                Err(TranscodeError::TranscodeInitFailed)
                            },
                        }
                    },
                    SessionState::Ready => {
                        match &self.entries[i].manifest {
                            Some(manifest) => InitCompletion {
                                waiters: 0,
                                result: Ok(copy_bytes(&manifest.document)),
                            },
                            None => vstd::pervasive::unreached(),
                        }
                    },
                    _ => InitCompletion {
                        waiters: 0,
                        result: Err(TranscodeError::TranscodeInitFailed),
                    },
                }
            },
            None => InitCompletion { waiters: 0, result: Err(TranscodeError::TranscodeInitFailed) },
        }
    }
}

/// What reading an init segment from disk gave.
#[derive(Debug)]
pub enum FileRead {
    /// The file's bytes.
    Found(Vec<u8>),
    /// There is no such file.
    Absent,
}

/// What a request for an init segment is answered with, given what reading
/// the file at [`init_segment_path`] gave: the bytes as they are, or
/// `SegmentNotFound` when the file is not there, as is the case before the
/// session's manifest has been produced.
pub open spec fn init_segment_answer(read: FileRead) -> Result<Seq<u8>, TranscodeError> {
    match read {
        FileRead::Found(bytes) => Ok(bytes@),
        FileRead::Absent => Err(TranscodeError::SegmentNotFound),
    }
}

/// A request touches nothing but the session it asks for.
pub proof fn lemma_session_request_leaves_others(
    table: SessionTable,
    session_id: Seq<char>,
    other: Seq<char>,
)
    requires
        other != session_id,
    ensures
        sessions_after_request(table, session_id).dom().contains(other) == table.dom().contains(
            other,
        ),
        table.dom().contains(other) ==> sessions_after_request(table, session_id)[other]
            == table[other],
        session_state(sessions_after_request(table, session_id), other) == session_state(
            table,
            other,
        ),
{
}

/// Requests and reports keep what holds of every session.
pub proof fn lemma_sessions_stay_wf(
    table: SessionTable,
    session_id: Seq<char>,
    succeeded: bool,
    document: Seq<u8>,
)
    requires
        sessions_wf(table),
    ensures
        sessions_wf(sessions_after_request(table, session_id)),
        sessions_wf(sessions_after_init(table, session_id, succeeded, document)),
{
    let requested = sessions_after_request(table, session_id);
    assert forall|id: Seq<char>| #[trigger] requested.dom().contains(id) implies record_wf(
        id,
        requested[id],
    ) by {
        if id != session_id {
            assert(table.dom().contains(id));
        }
    }
    let reported = sessions_after_init(table, session_id, succeeded, document);
    assert forall|id: Seq<char>| #[trigger] reported.dom().contains(id) implies record_wf(
        id,
        reported[id],
    ) by {
        assert(table.dom().contains(id));
    }
}

/// Manifest caching. Take a session that is neither ready nor being
/// initialised. The first request for its manifest is told to run the
/// transcoder. Once that run has succeeded and left `document`, the starter
/// receives `document`, and every later request is answered with `document`
/// from memory: none is told to run the transcoder, and answering changes
/// nothing in the manager.
pub proof fn lemma_manifest_is_cached(
    table: SessionTable,
    session_id: Seq<char>,
    document: Seq<u8>,
)
    requires
        manifest_action_in(session_state(table, session_id)) == ManifestAction::Initialize,
    ensures
        ({
            let started = sessions_after_request(table, session_id);
            let ready = sessions_after_init(started, session_id, true, document);
            &&& init_completion_in(started, session_id, true, document).result == Ok::<
                Seq<u8>,
                TranscodeError,
            >(document)
            &&& manifest_action_in(session_state(ready, session_id)) == ManifestAction::Cached
            &&& ready[session_id].manifest == Some(manifest_of(session_id, document))
            &&& sessions_after_request(ready, session_id) == ready
        }),
{
}

/// The manager after `n` requests in a row for the manifest of `session_id`.
pub open spec fn sessions_after_requests(table: SessionTable, session_id: Seq<char>, n: nat) -> SessionTable
    decreases n,
{
    if n == 0 {
        table
    } else {
        sessions_after_request(sessions_after_requests(table, session_id, (n - 1) as nat), session_id)
    }
}

/// How many of `n` requests in a row for the manifest of `session_id` are
/// told to run the transcoder.
pub open spec fn initializations_among(table: SessionTable, session_id: Seq<char>, n: nat) -> nat
    decreases n,
{
    if n == 0 {
        0
    } else {
        let before = sessions_after_requests(table, session_id, (n - 1) as nat);
        initializations_among(table, session_id, (n - 1) as nat) + if manifest_action_in(
            session_state(before, session_id),
        ) == ManifestAction::Initialize {
            1nat
        } else {
            0nat
        }
    }
}

/// However many requests ask for the manifest of a session while it is
/// being initialised, exactly one of them, the first, is told to run the
/// transcoder, and the report releases all the others with the one result
/// that the starter receives.
pub proof fn lemma_single_initialization(
    table: SessionTable,
    session_id: Seq<char>,
    n: nat,
    succeeded: bool,
    document: Seq<u8>,
)
    requires
        manifest_action_in(session_state(table, session_id)) == ManifestAction::Initialize,
        1 <= n <= u64::MAX,
    ensures
        initializations_among(table, session_id, n) == 1,
        session_state(sessions_after_requests(table, session_id, n), session_id)
            == SessionState::Initializing,
        init_completion_in(
            sessions_after_requests(table, session_id, n),
            session_id,
            succeeded,
            document,
        ) == (InitCompletionView {
            waiters: (n - 1) as nat,
            result: if succeeded {
                Ok(document)
            } else {
                Err(TranscodeError::TranscodeInitFailed)
            },
        }),
    decreases n,
{
    if n > 1 {
        lemma_single_initialization(table, session_id, (n - 1) as nat, succeeded, document);
    } else {
        assert(sessions_after_requests(table, session_id, 0) == table);
        assert(initializations_among(table, session_id, 0) == 0);
    }
}

/// The manifest of a ready session never changes: no request and no report,
/// for this session or another, replaces it or starts a new initialisation
/// of the session.
pub proof fn lemma_ready_manifest_is_stable(
    table: SessionTable,
    session_id: Seq<char>,
    other: Seq<char>,
    succeeded: bool,
    document: Seq<u8>,
)
    requires
        session_state(table, session_id) == SessionState::Ready,
    ensures
        sessions_after_request(table, other)[session_id] == table[session_id],
        session_state(sessions_after_request(table, other), session_id) == SessionState::Ready,
        sessions_after_init(table, other, succeeded, document)[session_id] == table[session_id],
        session_state(sessions_after_init(table, other, succeeded, document), session_id)
            == SessionState::Ready,
{
}

/// Failures are not kept. After a failed initialisation the session holds
/// no manifest, and the next request for it is told to run the transcoder.
pub proof fn lemma_failed_initialization_is_retried(
    table: SessionTable,
    session_id: Seq<char>,
    document: Seq<u8>,
)
    requires
        session_state(table, session_id) == SessionState::Initializing,
    ensures
        ({
            let failed = sessions_after_init(table, session_id, false, document);
            &&& session_state(failed, session_id) == SessionState::Failed
            &&& failed[session_id].manifest is None
            &&& manifest_action_in(session_state(failed, session_id)) == ManifestAction::Initialize
        }),
{
}

} // verus!
