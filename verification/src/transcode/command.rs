//! The external transcoder seen from the outside: where its files go, the
//! command line of each kind of invocation, and what counts as a success.

use vstd::prelude::*;
use vstd::string::StringExecFns;

use crate::text::decimal_chars;
use crate::text::u64_to_decimal;
use crate::transcode::window::segment_window;
use crate::transcode::window::spec_stream_kind;
use crate::transcode::window::stream_kind;
use crate::transcode::window::window_end;
use crate::transcode::window::window_start;
use crate::transcode::window::SegmentWindow;
use crate::transcode::window::StreamKind;
use crate::transcode::window::SEGMENT_DURATION;

verus! {

/// Directory under which every session keeps its files.
pub const CACHE_FOLDER: &'static str = "./cache";

/// Name of the transcoder's executable.
pub const TRANSCODER: &'static str = "ffmpeg";

/// The views of a list of strings.
pub open spec fn texts(strings: Seq<String>) -> Seq<Seq<char>> {
    strings.map_values(|s: String| s@)
}

/// The cache directory of a session.
pub open spec fn session_dir(session_id: Seq<char>) -> Seq<char> {
    "./cache"@ + "/"@ + session_id
}

/// The manifest document of a session.
pub open spec fn manifest_path(session_id: Seq<char>) -> Seq<char> {
    session_dir(session_id) + "/start.mpd"@
}

/// The init segment of one representation of a session.
pub open spec fn init_segment_path(session_id: Seq<char>, representation_id: u32) -> Seq<char> {
    session_dir(session_id) + "/init-stream"@ + decimal_chars(representation_id as nat) + ".m4s"@
}

/// The directory that holds the media segments of one representation.
pub open spec fn segment_dir(session_id: Seq<char>, representation_id: u32) -> Seq<char> {
    session_dir(session_id) + "/"@ + decimal_chars(representation_id as nat)
}

/// The file name under which a finished segment is published.
pub open spec fn segment_file_name(segment_index: u32) -> Seq<char> {
    "segment_"@ + decimal_chars(segment_index as nat) + ".m4s"@
}

/// The file name under which the transcoder writes a segment. It differs
/// from the published name, so that a half-written file is never served.
pub open spec fn staging_file_name(segment_index: u32) -> Seq<char> {
    segment_file_name(segment_index) + ".part"@
}

/// The published file of a segment.
pub open spec fn segment_path(
    session_id: Seq<char>,
    representation_id: u32,
    segment_index: u32,
) -> Seq<char> {
    segment_dir(session_id, representation_id) + "/"@ + segment_file_name(segment_index)
}

/// The file that the transcoder writes while it produces a segment.
pub open spec fn staging_path(
    session_id: Seq<char>,
    representation_id: u32,
    segment_index: u32,
) -> Seq<char> {
    segment_dir(session_id, representation_id) + "/"@ + staging_file_name(segment_index)
}

/// The manifest that the transcoder writes beside a segment; nothing reads it.
pub open spec fn scratch_manifest_path(session_id: Seq<char>, representation_id: u32) -> Seq<
    char,
> {
    segment_dir(session_id, representation_id) + "/unused.mpd"@
}

/// The stream selector handed to the transcoder for a kind of stream.
pub open spec fn stream_selector(kind: StreamKind) -> Seq<char> {
    match kind {
        StreamKind::Video => "v:0"@,
        StreamKind::Audio => "a:0"@,
    }
}

/// The arguments of the invocation that produces the manifest and one init
/// segment per representation of `input_file`, without any media segment.
pub open spec fn init_arguments(session_id: Seq<char>, input_file: Seq<char>) -> Seq<Seq<char>> {
    seq![
        "-y"@,
        "-i"@,
        input_file,
        "-c:v"@,
        "copy"@,
        "-c:a"@,
        "copy"@,
        "-seg_duration"@,
        decimal_chars(SEGMENT_DURATION as nat),
        "-f"@,
        "dash"@,
        "-t"@,
        "0"@,
        manifest_path(session_id),
    ]
}

/// The arguments of the invocation that copies, without re-encoding, one
/// elementary stream of `input_file` over the window of one segment into a
/// fragmented file named [`staging_file_name`] in [`segment_dir`].
pub open spec fn segment_arguments(
    session_id: Seq<char>,
    representation_id: u32,
    segment_index: u32,
    input_file: Seq<char>,
) -> Seq<Seq<char>> {
    let kind = spec_stream_kind(representation_id);
    seq![
        "-y"@,
        "-ss"@,
        decimal_chars(window_start(segment_index) as nat),
        "-to"@,
        decimal_chars(window_end(kind, segment_index) as nat),
        "-threads"@,
        "6"@,
        "-copyts"@,
        "-start_at_zero"@,
        "-noaccurate_seek"@,
        "-i"@,
        input_file,
        "-map"@,
        stream_selector(kind),
        "-c:v"@,
        "copy"@,
        "-c:a"@,
        "copy"@,
        "-movflags"@,
        "frag_keyframe"@,
        "-single_file_name"@,
        staging_file_name(segment_index),
        "-global_sidx"@,
        "1"@,
        "-min_frag_duration"@,
        "500"@,
        "-f"@,
        "dash"@,
        scratch_manifest_path(session_id, representation_id),
    ]
}

/// Builds [`session_dir`].
pub fn session_dir_of(session_id: &str) -> (dir: String)
    ensures
        dir@ == session_dir(session_id@),
{
    let mut dir = CACHE_FOLDER.to_owned();
    dir.append("/");
    dir.append(session_id);
    dir
}

/// Builds [`manifest_path`].
pub fn manifest_path_of(session_id: &str) -> (path: String)
    ensures
        path@ == manifest_path(session_id@),
{
    let mut path = session_dir_of(session_id);
    path.append("/start.mpd");
    path
}

/// Builds [`init_segment_path`].
pub fn init_segment_path_of(session_id: &str, representation_id: u32) -> (path: String)
    ensures
        path@ == init_segment_path(session_id@, representation_id),
{
    let mut path = session_dir_of(session_id);
    path.append("/init-stream");
    path.append(u64_to_decimal(representation_id as u64).as_str());
    path.append(".m4s");
    path
}

/// Builds [`segment_dir`].
pub fn segment_dir_of(session_id: &str, representation_id: u32) -> (dir: String)
    ensures
        dir@ == segment_dir(session_id@, representation_id),
{
    let mut dir = session_dir_of(session_id);
    dir.append("/");
    dir.append(u64_to_decimal(representation_id as u64).as_str());
    dir
}

/// Builds [`segment_file_name`].
pub fn segment_file_name_of(segment_index: u32) -> (name: String)
    ensures
        name@ == segment_file_name(segment_index),
{
    let mut name = "segment_".to_owned();
    name.append(u64_to_decimal(segment_index as u64).as_str());
    name.append(".m4s");
    name
}

/// Builds [`staging_file_name`].
pub fn staging_file_name_of(segment_index: u32) -> (name: String)
    ensures
        name@ == staging_file_name(segment_index),
{
    let mut name = segment_file_name_of(segment_index);
    name.append(".part");
    name
}

/// Builds [`segment_path`].
pub fn segment_path_of(session_id: &str, representation_id: u32, segment_index: u32) -> (path:
    String)
    ensures
        path@ == segment_path(session_id@, representation_id, segment_index),
{
    let mut path = segment_dir_of(session_id, representation_id);
    path.append("/");
    path.append(segment_file_name_of(segment_index).as_str());
    path
}

/// Builds [`staging_path`].
pub fn staging_path_of(session_id: &str, representation_id: u32, segment_index: u32) -> (path:
    String)
    ensures
        path@ == staging_path(session_id@, representation_id, segment_index),
{
    let mut path = segment_dir_of(session_id, representation_id);
    path.append("/");
    path.append(staging_file_name_of(segment_index).as_str());
    path
}

/// Builds [`scratch_manifest_path`].
pub fn scratch_manifest_path_of(session_id: &str, representation_id: u32) -> (path: String)
    ensures
        path@ == scratch_manifest_path(session_id@, representation_id),
{
    let mut path = segment_dir_of(session_id, representation_id);
    path.append("/unused.mpd");
    path
}

fn selector_of(kind: StreamKind) -> (selector: &'static str)
    ensures
        selector@ == stream_selector(kind),
{
    match kind {
        StreamKind::Video => "v:0",
        StreamKind::Audio => "a:0",
    }
}

fn push_arg(arguments: &mut Vec<String>, argument: &str)
    ensures
        texts(final(arguments)@) == texts(old(arguments)@).push(argument@),
{
    arguments.push(argument.to_owned());
    assert(texts(arguments@) =~= texts(old(arguments)@).push(argument@));
}

/// The command line, without the executable's name, of the invocation that
/// initialises a session.
pub fn init_command(session_id: &str, input_file: &str) -> (arguments: Vec<String>)
    ensures
        texts(arguments@) == init_arguments(session_id@, input_file@),
{
    let mut arguments: Vec<String> = Vec::new();
    assert(texts(arguments@) =~= Seq::<Seq<char>>::empty());
    push_arg(&mut arguments, "-y");
    push_arg(&mut arguments, "-i");
    push_arg(&mut arguments, input_file);
    push_arg(&mut arguments, "-c:v");
    push_arg(&mut arguments, "copy");
    push_arg(&mut arguments, "-c:a");
    push_arg(&mut arguments, "copy");
    push_arg(&mut arguments, "-seg_duration");
    push_arg(&mut arguments, u64_to_decimal(SEGMENT_DURATION as u64).as_str());
    push_arg(&mut arguments, "-f");
    push_arg(&mut arguments, "dash");
    push_arg(&mut arguments, "-t");
    push_arg(&mut arguments, "0");
    push_arg(&mut arguments, manifest_path_of(session_id).as_str());
    assert(texts(arguments@) =~= init_arguments(session_id@, input_file@));
    arguments
}

/// The command line, without the executable's name, of the invocation that
/// produces one media segment.
pub fn segment_command(
    session_id: &str,
    representation_id: u32,
    segment_index: u32,
    input_file: &str,
) -> (arguments: Vec<String>)
    ensures
        texts(arguments@) == segment_arguments(
            session_id@,
            representation_id,
            segment_index,
            input_file@,
        ),
{
    let kind = stream_kind(representation_id);
    let window: SegmentWindow = segment_window(kind, segment_index);
    let mut arguments: Vec<String> = Vec::new();
    assert(texts(arguments@) =~= Seq::<Seq<char>>::empty());
    push_arg(&mut arguments, "-y");
    push_arg(&mut arguments, "-ss");
    push_arg(&mut arguments, u64_to_decimal(window.start).as_str());
    push_arg(&mut arguments, "-to");
    push_arg(&mut arguments, u64_to_decimal(window.end).as_str());
    push_arg(&mut arguments, "-threads");
    push_arg(&mut arguments, "6");
    push_arg(&mut arguments, "-copyts");
    push_arg(&mut arguments, "-start_at_zero");
    push_arg(&mut arguments, "-noaccurate_seek");
    push_arg(&mut arguments, "-i");
    push_arg(&mut arguments, input_file);
    push_arg(&mut arguments, "-map");
    push_arg(&mut arguments, selector_of(kind));
    push_arg(&mut arguments, "-c:v");
    push_arg(&mut arguments, "copy");
    push_arg(&mut arguments, "-c:a");
    push_arg(&mut arguments, "copy");
    push_arg(&mut arguments, "-movflags");
    push_arg(&mut arguments, "frag_keyframe");
    push_arg(&mut arguments, "-single_file_name");
    push_arg(&mut arguments, staging_file_name_of(segment_index).as_str());
    push_arg(&mut arguments, "-global_sidx");
    push_arg(&mut arguments, "1");
    push_arg(&mut arguments, "-min_frag_duration");
    push_arg(&mut arguments, "500");
    push_arg(&mut arguments, "-f");
    push_arg(&mut arguments, "dash");
    push_arg(&mut arguments, scratch_manifest_path_of(session_id, representation_id).as_str());
    assert(texts(arguments@) =~= segment_arguments(
        session_id@,
        representation_id,
        segment_index,
        input_file@,
    ));
    arguments
}

/// What was observed of one run of the transcoder.
#[derive(Clone, Copy, Debug, PartialEq, Eq, Structural)]
pub struct ProcessReport {
    /// The process could be started.
    pub spawned: bool,
    /// The exit code, when the process ended by itself.
    pub exit_code: Option<i32>,
    /// The expected output file is on disk.
    pub output_present: bool,
}

/// A run succeeded when the process started, exited with status zero and
/// left the expected output. Nothing is taken to be present otherwise.
pub open spec fn run_succeeded(report: ProcessReport) -> bool {
    report.spawned && report.exit_code == Some(0i32) && report.output_present
}

/// Judges one run of the transcoder.
pub fn check_run(report: &ProcessReport) -> (ok: bool)
    ensures
        ok == run_succeeded(*report),
{
    if !report.spawned {
        return false;
    }
    match report.exit_code {
        Some(code) => code == 0 && report.output_present,
        None => false,
    }
}

/// The source file that a session transcodes. Every session reads the same
/// file for now.
pub fn get_file_for_session(session_id: &str) -> (file: Option<String>)
    ensures
        file matches Some(path) && path@ == "./downloads/video.mkv"@,
{
    Some("./downloads/video.mkv".to_owned())
}

} // verus!
