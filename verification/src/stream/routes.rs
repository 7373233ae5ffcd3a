//! The decisions behind the streaming endpoints. The caller talks to the
//! engine and to the client; what to answer is decided here.

use vstd::prelude::*;

use crate::error::ApiError;
use crate::infrastructure::torrent::content_hash;
use crate::infrastructure::torrent::get_torrent_handle;
use crate::infrastructure::torrent::is_content_hash;
use crate::infrastructure::torrent::parse_file_ref;
use crate::infrastructure::torrent::parse_torrent_id;
use crate::infrastructure::torrent::TorrentError;
use crate::infrastructure::torrent::TorrentFileRef;
use crate::infrastructure::torrent::TorrentId;
use crate::stream::byte_stream::ByteStream;
use crate::stream::error::StreamError;
use crate::stream::playlist::create_torrent_playlist_items;
use crate::stream::playlist::entry_views;
use crate::stream::playlist::file_views;
use crate::stream::playlist::is_sorted;
use crate::stream::playlist::playable_entries;
use crate::stream::playlist::playlist_text;
use crate::stream::playlist::render_playlist;
use crate::stream::playlist::PlaylistEntryView;
use crate::stream::playlist::TorrentFile;
use crate::stream::playlist::STREAM_BASE_PATH;
use crate::stream::range::range_view;
use crate::stream::range::respond;
use crate::stream::range::response_for;
use crate::stream::range::StreamResponse;
use crate::stream::range::StreamResponseView;

verus! {

/// Reads the identifier of the file that a streaming request names. A
/// malformed identifier is `InvalidHash`.
pub fn requested_file(hash: &str, file_id: usize) -> (r: Result<TorrentFileRef, ApiError>)
    ensures
        match r {
            Ok(file) => {
                &&& is_content_hash(hash@)
                &&& file.torrent_id.bytes@ == content_hash(hash@)
                &&& file.file_index == file_id
            },
            Err(e) => !is_content_hash(hash@) && e == ApiError::LibTorrentError(
                TorrentError::InvalidHash,
            ),
        },
{
    match parse_file_ref(hash, file_id) {
        Ok(file) => Ok(file),
        Err(e) => Err(ApiError::LibTorrentError(e)),
    }
}

/// Reads the identifier of the torrent that a playlist request names. A
/// malformed identifier is `InvalidHash`.
pub fn requested_torrent(hash: &str) -> (r: Result<TorrentId, ApiError>)
    ensures
        match r {
            Ok(id) => is_content_hash(hash@) && id.bytes@ == content_hash(hash@),
            Err(e) => !is_content_hash(hash@) && e == ApiError::LibTorrentError(
                TorrentError::InvalidHash,
            ),
        },
{
    match parse_torrent_id(hash) {
        Ok(id) => Ok(id),
        Err(e) => Err(ApiError::LibTorrentError(e)),
    }
}

/// The torrent that the engine holds under the identifier of a request; a
/// torrent that the engine does not manage is `TorrentNotFound`.
pub fn managed_torrent<T>(found: Option<T>) -> (r: Result<T, ApiError>)
    ensures
        match r {
            Ok(handle) => found == Some(handle),
            Err(e) => found is None && e == ApiError::LibTorrentError(
                TorrentError::TorrentNotFound,
            ),
        },
{
    match get_torrent_handle(found) {
        Ok(handle) => Ok(handle),
        Err(e) => Err(ApiError::LibTorrentError(e)),
    }
}

/// The cursor over a file that the engine has opened for streaming, given
/// the length that the engine reports; a file that it could not open is
/// `StreamUnavailable`.
pub fn acquired_stream(length: Option<u64>) -> (r: Result<ByteStream, ApiError>)
    ensures
        match r {
            Ok(stream) => length == Some(stream.spec_len()) && stream.spec_position() == 0,
            Err(e) => length is None && e == ApiError::StreamError(StreamError::StreamUnavailable),
        },
{
    match length {
        Some(length) => Ok(ByteStream::new(length)),
        None => Err(ApiError::StreamError(StreamError::StreamUnavailable)),
    }
}

/// Decides the response to a streaming request on an open stream, `range`
/// being the value of the request's `Range` header if it has one, and moves
/// the stream to the first byte of the body.
pub fn stream_file(stream: &mut ByteStream, range: Option<&[u8]>) -> (r: Result<
    StreamResponse,
    ApiError,
>)
    ensures
        final(stream).spec_len() == old(stream).spec_len(),
        match r {
            Ok(response) => {
                &&& response_for(range_view(range), old(stream).spec_len()) == Ok::<
                    StreamResponseView,
                    StreamError,
                >(response@)
                &&& final(stream).spec_position() == response.start
                &&& final(stream).spec_remaining() == response.content_length
            },
            Err(e) => {
                &&& response_for(range_view(range), old(stream).spec_len()) == Err::<
                    StreamResponseView,
                    StreamError,
                >(StreamError::StreamUnavailable)
                &&& e == ApiError::StreamError(StreamError::StreamUnavailable)
                &&& final(stream).spec_position() == old(stream).spec_position()
            },
        },
{
    match respond(stream, range) {
        Ok(response) => Ok(response),
        Err(e) => Err(ApiError::StreamError(e)),
    }
}

/// Writes the playlist of a torrent: one line for each of its playable
/// files, in the order of a playlist, each the URL under which `host`
/// streams the file.
pub fn create_playlist(host: &str, hash: &str, files: &Vec<TorrentFile>) -> (body: String)
    ensures
        exists|entries: Seq<PlaylistEntryView>|
            {
                &&& is_sorted(entries)
                &&& entries.to_multiset() == playable_entries(file_views(files@)).to_multiset()
                &&& body@ == #[trigger] playlist_text(host@, "v1/stream"@, hash@, entries)
            },
{
    let entries = create_torrent_playlist_items(files);
    let body = render_playlist(host, STREAM_BASE_PATH, hash, &entries);
    assert(body@ == playlist_text(host@, "v1/stream"@, hash@, entry_views(entries@)));
    body
}

} // verus!
