//! The part of the source that one segment is cut from.

use vstd::prelude::*;

verus! {

/// Length of one segment, in seconds.
pub const SEGMENT_DURATION: u32 = 5;

/// How far an audio window reaches past its nominal end, in seconds, so that
/// a player that seeks slightly late still finds samples.
pub const AUDIO_OVERLAP: u32 = 2;

/// What an elementary stream carries.
#[derive(Clone, Copy, Debug, PartialEq, Eq, Structural)]
pub enum StreamKind {
    Video,
    Audio,
}

/// The kind of the stream behind a representation: representation `0` is
/// the video track, every other representation an audio track.
pub open spec fn spec_stream_kind(representation_id: u32) -> StreamKind {
    if representation_id == 0 {
        StreamKind::Video
    } else {
        StreamKind::Audio
    }
}

/// The kind of the stream behind a representation.
pub fn stream_kind(representation_id: u32) -> (kind: StreamKind)
    ensures
        kind == spec_stream_kind(representation_id),
{
    if representation_id == 0 {
        StreamKind::Video
    } else {
        StreamKind::Audio
    }
}

/// A span of the source, in seconds from its beginning; `end` is exclusive.
#[derive(Clone, Copy, Debug, PartialEq, Eq, Structural)]
pub struct SegmentWindow {
    pub start: u64,
    pub end: u64,
}

/// Where the segment with the given index begins.
pub open spec fn window_start(segment_index: u32) -> int {
    segment_index * SEGMENT_DURATION
}

/// Where the extraction of the segment with the given index ends: at the
/// nominal end for video, `AUDIO_OVERLAP` later for audio.
pub open spec fn window_end(kind: StreamKind, segment_index: u32) -> int {
    window_start(segment_index) + SEGMENT_DURATION + match kind {
        StreamKind::Video => 0int,
        StreamKind::Audio => AUDIO_OVERLAP as int,
    }
}

/// The window from which the segment with the given index is extracted.
pub fn segment_window(kind: StreamKind, segment_index: u32) -> (w: SegmentWindow)
    ensures
        w.start == window_start(segment_index),
        w.end == window_end(kind, segment_index),
{
    assert(segment_index * SEGMENT_DURATION == segment_index * 5) by (nonlinear_arith)
        requires
            SEGMENT_DURATION == 5,
    ;
    let start: u64 = (segment_index as u64) * (SEGMENT_DURATION as u64);
    let nominal_end: u64 = start + (SEGMENT_DURATION as u64);
    let end: u64 = match kind {
        StreamKind::Video => nominal_end,
        StreamKind::Audio => nominal_end + (AUDIO_OVERLAP as u64),
    };
    SegmentWindow { start, end }
}

/// Consecutive video windows tile the source: each begins where the one
/// before it ends, and every window is `SEGMENT_DURATION` long.
pub proof fn lemma_video_windows_tile(segment_index: u32)
    ensures
        window_end(StreamKind::Video, segment_index) - window_start(segment_index)
            == SEGMENT_DURATION,
        segment_index < u32::MAX ==> window_start((segment_index + 1) as u32) == window_end(
            StreamKind::Video,
            segment_index,
        ),
{
}

/// An audio window covers the video window of the same segment and reaches
/// exactly `AUDIO_OVERLAP` further.
pub proof fn lemma_audio_window_covers_video(segment_index: u32)
    ensures
        window_end(StreamKind::Audio, segment_index) == window_end(
            StreamKind::Video,
            segment_index,
        ) + AUDIO_OVERLAP,
{
}

} // verus!
