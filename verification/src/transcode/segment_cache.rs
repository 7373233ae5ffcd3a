//! The segment cache: which segments are published, which are being produced,
//! and who has to produce what. However many requests arrive for one
//! segment, at most one of them is told to run the transcoder; the others
//! attach to that production and share its result.
//!
//! The cache decides; it performs no I/O. The caller runs the transcoder when
//! told to, and reports how the run ended.

use vstd::prelude::*;

use crate::transcode::command::check_run;
use crate::transcode::command::run_succeeded;
use crate::transcode::command::segment_arguments;
use crate::transcode::command::segment_command;
use crate::transcode::command::segment_dir;
use crate::transcode::command::segment_dir_of;
use crate::transcode::command::segment_path;
use crate::transcode::command::segment_path_of;
use crate::transcode::command::staging_path;
use crate::transcode::command::staging_path_of;
use crate::transcode::command::texts;
use crate::transcode::command::ProcessReport;
use crate::transcode::error::TranscodeError;
use crate::table::is_last_row_of;
use crate::table::lemma_table_absent;
use crate::table::lemma_table_lookup;
use crate::table::lemma_table_push;
use crate::table::lemma_table_update;
use crate::table::table_map;
use crate::transcode::window::segment_window;
use crate::transcode::window::spec_stream_kind;
use crate::transcode::window::stream_kind;
use crate::transcode::window::window_end;
use crate::transcode::window::window_start;
use crate::transcode::window::SegmentWindow;

verus! {

/// Names one cached artifact: a segment of a representation of a session.
#[derive(Debug)]
pub struct SegmentKey {
    pub session_id: String,
    pub representation_id: u32,
    pub segment_index: u32,
}

/// A [`SegmentKey`] as a mathematical value.
pub struct SegmentKeyView {
    pub session_id: Seq<char>,
    pub representation_id: u32,
    pub segment_index: u32,
}

impl View for SegmentKey {
    type V = SegmentKeyView;

    open spec fn view(&self) -> SegmentKeyView {
        SegmentKeyView {
            session_id: self.session_id@,
            representation_id: self.representation_id,
            segment_index: self.segment_index,
        }
    }
}

impl SegmentKey {
    /// The key of segment `segment_index` of representation
    /// `representation_id` of session `session_id`.
    pub fn new(session_id: &str, representation_id: u32, segment_index: u32) -> (key: SegmentKey)
        ensures
            key@ == (SegmentKeyView {
                session_id: session_id@,
                representation_id,
                segment_index,
            }),
    {
        SegmentKey { session_id: session_id.to_owned(), representation_id, segment_index }
    }

    /// True when both keys name the same artifact.
    pub fn same(&self, other: &SegmentKey) -> (r: bool)
        ensures
            r == (self@ == other@),
    {
        self.representation_id == other.representation_id && self.segment_index
            == other.segment_index && self.session_id == other.session_id
    }

    /// A copy of the key.
    pub fn duplicate(&self) -> (key: SegmentKey)
        ensures
            key@ == self@,
    {
        SegmentKey {
            session_id: self.session_id.clone(),
            representation_id: self.representation_id,
            segment_index: self.segment_index,
        }
    }
}

/// Where a segment stands.
#[derive(Clone, Copy, Debug, PartialEq, Eq, Structural)]
pub enum SegmentState {
    /// Nothing is known of the segment.
    Missing,
    /// One transcoder run is producing the segment.
    Producing,
    /// The segment is published and can be served.
    Ready,
    /// The last production failed. The next request starts a new one.
    Failed,
}

/// What the cache holds of one segment, as a mathematical value.
pub struct SegmentRecord {
    pub state: SegmentState,
    pub file_path: Seq<char>,
    /// Requests attached to the running production, its starter not counted.
    pub waiters: nat,
}

/// The cache as a mathematical value.
pub type SegmentTable = Map<SegmentKeyView, SegmentRecord>;

/// One row of the cache.
#[derive(Debug)]
pub struct SegmentCacheEntry {
    pub key: SegmentKey,
    pub file_path: String,
    pub state: SegmentState,
    pub waiters: u64,
}

impl SegmentCacheEntry {
    /// What the row holds, without its key.
    pub open spec fn record(&self) -> SegmentRecord {
        SegmentRecord {
            state: self.state,
            file_path: self.file_path@,
            waiters: self.waiters as nat,
        }
    }
}

/// What a request is told to do.
#[derive(Clone, Copy, Debug, PartialEq, Eq, Structural)]
pub enum SegmentAction {
    /// Read the published file.
    Serve,
    /// Wait for the production that is running, and take its result.
    Attach,
    /// Run the transcoder, then report to [`SegmentCache::complete`].
    Produce,
}

/// Everything needed to produce one segment.
#[derive(Debug)]
pub struct SegmentJob {
    pub key: SegmentKey,
    /// The span of the source to extract.
    pub window: SegmentWindow,
    /// The directory to create, if missing, before the run.
    pub directory: String,
    /// The transcoder's arguments.
    pub arguments: Vec<String>,
    /// The file the transcoder writes.
    pub staging_path: String,
    /// The name the staging file is moved to once the run has succeeded.
    pub published_path: String,
}

/// What a request is told to do, with what it needs for it.
#[derive(Debug)]
pub enum SegmentDecision {
    Serve { file_path: String },
    Attach,
    Produce(SegmentJob),
}

impl SegmentDecision {
    /// The action without its payload.
    pub open spec fn action(self) -> SegmentAction {
        match self {
            SegmentDecision::Serve { .. } => SegmentAction::Serve,
            SegmentDecision::Attach => SegmentAction::Attach,
            SegmentDecision::Produce(_) => SegmentAction::Produce,
        }
    }
}

/// How a production ended, for its starter and for everyone attached to it.
#[derive(Debug)]
pub struct Completion {
    /// How many attached requests are released with `result`.
    pub waiters: u64,
    /// The published file, or the failure.
    pub result: Result<String, TranscodeError>,
}

/// A [`Completion`] as a mathematical value.
pub struct CompletionView {
    pub waiters: nat,
    pub result: Result<Seq<char>, TranscodeError>,
}

impl View for Completion {
    type V = CompletionView;

    open spec fn view(&self) -> CompletionView {
        CompletionView {
            waiters: self.waiters as nat,
            result: match self.result {
                Ok(path) => Ok(path@),
                Err(e) => Err(e),
            },
        }
    }
}

/// The published file of a key.
pub open spec fn published_path(key: SegmentKeyView) -> Seq<char> {
    segment_path(key.session_id, key.representation_id, key.segment_index)
}

/// The state of a segment; `Missing` for a key the cache has never seen.
pub open spec fn segment_state(table: SegmentTable, key: SegmentKeyView) -> SegmentState {
    if table.dom().contains(key) {
        table[key].state
    } else {
        SegmentState::Missing
    }
}

/// How many requests are attached to the production of a segment.
pub open spec fn segment_waiters(table: SegmentTable, key: SegmentKeyView) -> nat {
    if table.dom().contains(key) {
        table[key].waiters
    } else {
        0
    }
}

/// What a request for a segment in the given state is told to do.
pub open spec fn action_in(state: SegmentState) -> SegmentAction {
    match state {
        SegmentState::Ready => SegmentAction::Serve,
        SegmentState::Producing => SegmentAction::Attach,
        SegmentState::Missing => SegmentAction::Produce,
        SegmentState::Failed => SegmentAction::Produce,
    }
}

/// One more waiter; the count stops at the largest number it can hold.
pub open spec fn one_more(waiters: nat) -> nat {
    if waiters < u64::MAX {
        waiters + 1
    } else {
        waiters
    }
}

/// The cache after a request for `key`.
pub open spec fn table_after_request(table: SegmentTable, key: SegmentKeyView) -> SegmentTable {
    match segment_state(table, key) {
        SegmentState::Ready => table,
        SegmentState::Producing => table.insert(
            key,
            SegmentRecord { waiters: one_more(table[key].waiters), ..table[key] },
        ),
        _ => table.insert(
            key,
            SegmentRecord {
                state: SegmentState::Producing,
                file_path: published_path(key),
                waiters: 0,
            },
        ),
    }
}

/// The cache after the production of `key` has been reported. A report for
/// a segment that is not being produced changes nothing.
pub open spec fn table_after_completion(
    table: SegmentTable,
    key: SegmentKeyView,
    succeeded: bool,
) -> SegmentTable {
    if segment_state(table, key) == SegmentState::Producing {
        table.insert(
            key,
            SegmentRecord {
                state: if succeeded {
                    SegmentState::Ready
                } else {
                    SegmentState::Failed
                },
                waiters: 0,
                ..table[key]
            },
        )
    } else {
        table
    }
}

/// What the starter of the production of `key`, and everyone attached to it,
/// receives once the production has been reported.
pub open spec fn completion_in(table: SegmentTable, key: SegmentKeyView, succeeded: bool) -> CompletionView {
    match segment_state(table, key) {
        SegmentState::Producing => CompletionView {
            waiters: table[key].waiters,
            result: if succeeded {
                Ok(table[key].file_path)
            } else {
                Err(TranscodeError::TranscodeFailed)
            },
        },
        SegmentState::Ready => CompletionView { waiters: 0, result: Ok(table[key].file_path) },
        _ => CompletionView { waiters: 0, result: Err(TranscodeError::TranscodeFailed) },
    }
}

/// Every segment the cache knows is filed under the published path of its key.
pub open spec fn paths_are_published(table: SegmentTable) -> bool {
    forall|key: SegmentKeyView| #[trigger]
        table.dom().contains(key) ==> table[key].file_path == published_path(key)
}

/// True when `job` is the production of `key` from `input_file`.
pub open spec fn job_is_for(job: SegmentJob, key: SegmentKeyView, input_file: Seq<char>) -> bool {
    &&& job.key@ == key
    &&& job.window.start == window_start(key.segment_index)
    &&& job.window.end == window_end(spec_stream_kind(key.representation_id), key.segment_index)
    &&& job.directory@ == segment_dir(key.session_id, key.representation_id)
    &&& texts(job.arguments@) == segment_arguments(
        key.session_id,
        key.representation_id,
        key.segment_index,
        input_file,
    )
    &&& job.staging_path@ == staging_path(
        key.session_id,
        key.representation_id,
        key.segment_index,
    )
    &&& job.published_path@ == published_path(key)
}

/// Everything needed to produce the segment `key` from `input_file`.
pub fn segment_job(key: &SegmentKey, input_file: &str) -> (job: SegmentJob)
    ensures
        job_is_for(job, key@, input_file@),
{
    let session_id = key.session_id.as_str();
    SegmentJob {
        key: key.duplicate(),
        window: segment_window(stream_kind(key.representation_id), key.segment_index),
        directory: segment_dir_of(session_id, key.representation_id),
        arguments: segment_command(
            session_id,
            key.representation_id,
            key.segment_index,
            input_file,
        ),
        staging_path: staging_path_of(session_id, key.representation_id, key.segment_index),
        published_path: segment_path_of(session_id, key.representation_id, key.segment_index),
    }
}

/// The table of cached segments.
pub struct SegmentCache {
    entries: Vec<SegmentCacheEntry>,
}

impl SegmentCache {
    spec fn rows(&self) -> Seq<(SegmentKeyView, SegmentRecord)> {
        self.entries@.map_values(|e: SegmentCacheEntry| (e.key@, e.record()))
    }

    /// The cache as a map from keys to what is held of them.
    pub closed spec fn view(&self) -> SegmentTable {
        table_map(self.rows())
    }

    /// The invariant of the cache.
    pub open spec fn wf(&self) -> bool {
        paths_are_published(self@)
    }

    /// A cache that knows no segment.
    pub fn new() -> (cache: SegmentCache)
        ensures
            cache@ == Map::<SegmentKeyView, SegmentRecord>::empty(),
            cache.wf(),
    {
        let cache = SegmentCache { entries: Vec::new() };
        assert(cache.rows() =~= Seq::empty());
        cache
    }

    fn find(&self, key: &SegmentKey) -> (found: Option<usize>)
        ensures
            match found {
                Some(i) => {
                    &&& i < self.entries.len()
                    &&& is_last_row_of(self.rows(), i as int, key@)
                    &&& self@.dom().contains(key@)
                    &&& self@[key@] == self.entries[i as int].record()
                },
                None => !self@.dom().contains(key@),
            },
    {
        let mut i: usize = self.entries.len();
        while i > 0
            invariant
                i <= self.entries.len(),
                forall|j: int| i <= j < self.entries.len() ==> (#[trigger] self.rows()[j]).0 != key@,
            decreases i,
        {
            i = i - 1;
            if self.entries[i].key.same(key) {
                proof {
                    lemma_table_lookup(self.rows(), i as int, key@);
                }
                return Some(i);
            }
        }
        proof {
            lemma_table_absent(self.rows(), key@);
        }
        None
    }

    /// The state of a segment.
    pub fn state_of(&self, key: &SegmentKey) -> (state: SegmentState)
        ensures
            state == segment_state(self@, key@),
    {
        match self.find(key) {
            Some(i) => self.entries[i].state,
            None => SegmentState::Missing,
        }
    }

    /// Takes a request for the segment `key` of a session whose source is
    /// `input_file`: a published segment is served, a segment in production
    /// is waited for, and any other segment is put in production by this
    /// request.
    pub fn request(&mut self, key: &SegmentKey, input_file: &str) -> (decision: SegmentDecision)
        requires
            old(self).wf(),
        ensures
            final(self).wf(),
            final(self)@ == table_after_request(old(self)@, key@),
            decision.action() == action_in(segment_state(old(self)@, key@)),
            decision matches SegmentDecision::Serve { file_path } ==> file_path@ == published_path(
                key@,
            ),
            decision matches SegmentDecision::Produce(job) ==> job_is_for(job, key@, input_file@),
    {
        let ghost before = self.rows();
        let ghost record = table_after_request(old(self)@, key@)[key@];
        match self.find(key) {
            Some(i) => {
                let state = self.entries[i].state;
                match state {
                    SegmentState::Ready => {
                        SegmentDecision::Serve { file_path: self.entries[i].file_path.clone() }
                    },
                    SegmentState::Producing => {
                        let waiters = self.entries[i].waiters;
                        if waiters < u64::MAX {
                            self.entries[i].waiters = waiters + 1;
                        }
                        proof {
                            assert(self.rows() =~= before.update(i as int, (key@, record)));
                            lemma_table_update(before, i as int, key@, record);
                        }
                        SegmentDecision::Attach
                    },
                    _ => {
                        let job = segment_job(key, input_file);
                        self.entries[i].state = SegmentState::Producing;
                        self.entries[i].waiters = 0;
                        proof {
                            assert(self.rows() =~= before.update(i as int, (key@, record)));
                            lemma_table_update(before, i as int, key@, record);
                        }
                        SegmentDecision::Produce(job)
                    },
                }
            },
            None => {
                let job = segment_job(key, input_file);
                let entry = SegmentCacheEntry {
                    key: key.duplicate(),
                    file_path: job.published_path.clone(),
                    state: SegmentState::Producing,
                    waiters: 0,
                };
                self.entries.push(entry);
                proof {
                    assert(self.rows() =~= before.push((key@, record)));
                    lemma_table_push(before, key@, record);
                }
                SegmentDecision::Produce(job)
            },
        }
    }

    /// Takes the report of the run that produced the segment `key`. After a
    /// successful run the segment is published; after any other it has
    /// failed, and the next request produces it anew. Either way the starter
    /// and every attached request receive the one result returned here.
    pub fn complete(&mut self, key: &SegmentKey, report: &ProcessReport) -> (completion: Completion)
        requires
            old(self).wf(),
        ensures
            final(self).wf(),
            final(self)@ == table_after_completion(old(self)@, key@, run_succeeded(*report)),
            completion@ == completion_in(old(self)@, key@, run_succeeded(*report)),
    {
        let ghost before = self.rows();
        let succeeded = check_run(report);
        let ghost record = table_after_completion(old(self)@, key@, succeeded)[key@];
        match self.find(key) {
            Some(i) => {
                let state = self.entries[i].state;
                let file_path = self.entries[i].file_path.clone();
                match state {
                    SegmentState::Producing => {
                        let waiters = self.entries[i].waiters;
                        self.entries[i].state = if succeeded {
                            SegmentState::Ready
                        } else {
                            SegmentState::Failed
                        };
                        self.entries[i].waiters = 0;
                        proof {
                            assert(self.rows() =~= before.update(i as int, (key@, record)));
                            lemma_table_update(before, i as int, key@, record);
                        }
                        Completion {
                            waiters,
                            result: if succeeded {
                                Ok(file_path)
                            } else {
                                Err(TranscodeError::TranscodeFailed)
                            },
                        }
                    },
                    SegmentState::Ready => Completion { waiters: 0, result: Ok(file_path) },
                    _ => Completion { waiters: 0, result: Err(TranscodeError::TranscodeFailed) },
                }
            },
            None => Completion { waiters: 0, result: Err(TranscodeError::TranscodeFailed) },
        }
    }
}

/// What happens to the cache: a request for a segment, or the report of
/// how the production of a segment ended.
pub enum CacheEvent {
    Request(SegmentKeyView),
    Report(SegmentKeyView, bool),
}

/// The cache after one event.
pub open spec fn table_after_event(table: SegmentTable, event: CacheEvent) -> SegmentTable {
    match event {
        CacheEvent::Request(key) => table_after_request(table, key),
        CacheEvent::Report(key, succeeded) => table_after_completion(table, key, succeeded),
    }
}

/// The cache after the events of `trace`, taken in order.
pub open spec fn table_after_trace(table: SegmentTable, trace: Seq<CacheEvent>) -> SegmentTable
    decreases trace.len(),
{
    if trace.len() == 0 {
        table
    } else {
        table_after_event(table_after_trace(table, trace.drop_last()), trace.last())
    }
}

/// How many events of `trace` are requests for `key`.
pub open spec fn requests_for(trace: Seq<CacheEvent>, key: SegmentKeyView) -> nat
    decreases trace.len(),
{
    if trace.len() == 0 {
        0
    } else {
        requests_for(trace.drop_last(), key) + if trace.last() == CacheEvent::Request(key) {
            1nat
        } else {
            0nat
        }
    }
}

/// True when the event is a report on `key`.
pub open spec fn reports_on(event: CacheEvent, key: SegmentKeyView) -> bool {
    event matches CacheEvent::Report(reported, _) && reported == key
}

/// True when no event of `trace` reports on `key`.
pub open spec fn no_report_on(trace: Seq<CacheEvent>, key: SegmentKeyView) -> bool {
    forall|i: int| 0 <= i < trace.len() ==> !reports_on(#[trigger] trace[i], key)
}

/// How many requests of `trace`, taken in order from `table`, are told to
/// produce `key`.
pub open spec fn productions_of(
    table: SegmentTable,
    trace: Seq<CacheEvent>,
    key: SegmentKeyView,
) -> nat
    decreases trace.len(),
{
    if trace.len() == 0 {
        0
    } else {
        let before = table_after_trace(table, trace.drop_last());
        productions_of(table, trace.drop_last(), key) + if trace.last() == CacheEvent::Request(key)
            && action_in(segment_state(before, key)) == SegmentAction::Produce {
            1nat
        } else {
            0nat
        }
    }
}

/// A request touches nothing but the segment it asks for.
pub proof fn lemma_request_leaves_others(
    table: SegmentTable,
    key: SegmentKeyView,
    other: SegmentKeyView,
)
    requires
        other != key,
    ensures
        table_after_request(table, key).dom().contains(other) == table.dom().contains(other),
        table.dom().contains(other) ==> table_after_request(table, key)[other] == table[other],
        segment_state(table_after_request(table, key), other) == segment_state(table, other),
        segment_waiters(table_after_request(table, key), other) == segment_waiters(table, other),
{
}

/// A report touches nothing but the segment it is about.
pub proof fn lemma_completion_leaves_others(
    table: SegmentTable,
    key: SegmentKeyView,
    succeeded: bool,
    other: SegmentKeyView,
)
    requires
        other != key,
    ensures
        segment_state(table_after_completion(table, key, succeeded), other) == segment_state(
            table,
            other,
        ),
        segment_waiters(table_after_completion(table, key, succeeded), other) == segment_waiters(
            table,
            other,
        ),
{
}

/// Requests and reports keep every segment under the published path of
/// its key.
pub proof fn lemma_paths_stay_published(table: SegmentTable, key: SegmentKeyView, succeeded: bool)
    requires
        paths_are_published(table),
    ensures
        paths_are_published(table_after_request(table, key)),
        paths_are_published(table_after_completion(table, key, succeeded)),
{
    let requested = table_after_request(table, key);
    assert forall|k: SegmentKeyView| #[trigger]
        requested.dom().contains(k) implies requested[k].file_path == published_path(k) by {
        if k != key {
            assert(table.dom().contains(k));
        }
    }
    let reported = table_after_completion(table, key, succeeded);
    assert forall|k: SegmentKeyView| #[trigger]
        reported.dom().contains(k) implies reported[k].file_path == published_path(k) by {
        assert(table.dom().contains(k));
    }
}

/// An event about another segment touches nothing of this one.
pub proof fn lemma_event_leaves_others(table: SegmentTable, event: CacheEvent, key: SegmentKeyView)
    requires
        event != CacheEvent::Request(key),
        !reports_on(event, key),
    ensures
        segment_state(table_after_event(table, event), key) == segment_state(table, key),
        segment_waiters(table_after_event(table, event), key) == segment_waiters(table, key),
        table.dom().contains(key) ==> table_after_event(table, event)[key] == table[key],
{
    match event {
        CacheEvent::Request(other) => {
            lemma_request_leaves_others(table, other, key);
        },
        CacheEvent::Report(other, succeeded) => {
            lemma_completion_leaves_others(table, other, succeeded, key);
        },
    }
}

proof fn lemma_front_has_no_report(trace: Seq<CacheEvent>, key: SegmentKeyView)
    requires
        trace.len() > 0,
        no_report_on(trace, key),
    ensures
        no_report_on(trace.drop_last(), key),
        !reports_on(trace.last(), key),
{
    let front = trace.drop_last();
    assert forall|i: int| 0 <= i < front.len() implies !reports_on(#[trigger] front[i], key) by {
        assert(front[i] == trace[i]);
    }
    assert(trace.last() == trace[trace.len() - 1]);
}

/// Single flight. Take a segment that is neither published nor in
/// production, and any run of events that holds no report on it: requests
/// for this segment, and requests for and reports on others, in any order.
/// Exactly one of the requests is told to produce the segment, as soon as
/// one asks for it. The others that ask for it are attached to that
/// production, and the report releases all of them with the one result that
/// the starter receives: the published path after a successful run,
/// `TranscodeFailed` after any other.
pub proof fn lemma_single_flight(
    table: SegmentTable,
    trace: Seq<CacheEvent>,
    key: SegmentKeyView,
    succeeded: bool,
)
    requires
        action_in(segment_state(table, key)) == SegmentAction::Produce,
        no_report_on(trace, key),
        requests_for(trace, key) >= 1,
        requests_for(trace, key) - 1 <= u64::MAX,
    ensures
        productions_of(table, trace, key) == 1,
        segment_state(table_after_trace(table, trace), key) == SegmentState::Producing,
        completion_in(table_after_trace(table, trace), key, succeeded).waiters == requests_for(
            trace,
            key,
        ) - 1,
        completion_in(table_after_trace(table, trace), key, succeeded).result == if succeeded {
            Ok::<Seq<char>, TranscodeError>(published_path(key))
        } else {
            Err::<Seq<char>, TranscodeError>(TranscodeError::TranscodeFailed)
        },
    decreases trace.len(),
{
    let front = trace.drop_last();
    let before = table_after_trace(table, front);
    lemma_front_has_no_report(trace, key);
    if requests_for(front, key) == 0 {
        lemma_untouched_without_events(table, front, key);
    } else {
        lemma_single_flight(table, front, key, succeeded);
        if trace.last() != CacheEvent::Request(key) {
            lemma_event_leaves_others(before, trace.last(), key);
        }
    }
}

/// A segment that no event is about stays as it is, and is not produced.
pub proof fn lemma_untouched_without_events(
    table: SegmentTable,
    trace: Seq<CacheEvent>,
    key: SegmentKeyView,
)
    requires
        requests_for(trace, key) == 0,
        no_report_on(trace, key),
    ensures
        productions_of(table, trace, key) == 0,
        segment_state(table_after_trace(table, trace), key) == segment_state(table, key),
        segment_waiters(table_after_trace(table, trace), key) == segment_waiters(table, key),
    decreases trace.len(),
{
    if trace.len() > 0 {
        lemma_front_has_no_report(trace, key);
        lemma_untouched_without_events(table, trace.drop_last(), key);
        lemma_event_leaves_others(
            table_after_trace(table, trace.drop_last()),
            trace.last(),
            key,
        );
    }
}

/// Idempotence. Once a segment has been produced with success, every
/// request for it is served the same published file, no request is told to
/// produce it again, and serving changes nothing in the cache.
pub proof fn lemma_published_segment_is_served(table: SegmentTable, key: SegmentKeyView)
    requires
        action_in(segment_state(table, key)) == SegmentAction::Produce,
    ensures
        ({
            let produced = table_after_completion(table_after_request(table, key), key, true);
            &&& completion_in(table_after_request(table, key), key, true).result == Ok::<
                Seq<char>,
                TranscodeError,
            >(published_path(key))
            &&& action_in(segment_state(produced, key)) == SegmentAction::Serve
            &&& produced[key].file_path == published_path(key)
            &&& table_after_request(produced, key) == produced
        }),
{
}

/// A published segment stays published, under the same path, whatever
/// requests and reports follow.
pub proof fn lemma_ready_is_final(
    table: SegmentTable,
    key: SegmentKeyView,
    other: SegmentKeyView,
    succeeded: bool,
)
    requires
        segment_state(table, key) == SegmentState::Ready,
    ensures
        segment_state(table_after_request(table, other), key) == SegmentState::Ready,
        table_after_request(table, other)[key] == table[key],
        segment_state(table_after_completion(table, other, succeeded), key) == SegmentState::Ready,
        table_after_completion(table, other, succeeded)[key] == table[key],
{
}

/// Failures are not kept. After a failed production the segment is
/// `Failed`, and the next request for it is told to produce it.
pub proof fn lemma_failure_is_retried(table: SegmentTable, key: SegmentKeyView)
    requires
        segment_state(table, key) == SegmentState::Producing,
    ensures
        segment_state(table_after_completion(table, key, false), key) == SegmentState::Failed,
        action_in(segment_state(table_after_completion(table, key, false), key))
            == SegmentAction::Produce,
        segment_state(
            table_after_request(table_after_completion(table, key, false), key),
            key,
        ) == SegmentState::Producing,
{
}

} // verus!
