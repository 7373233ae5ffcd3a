//! Torrent identifiers, and the failures of looking a torrent up.

use std::str::FromStr;

use librqbit_core::hash_id::Id20;
use vstd::prelude::*;

use crate::text::all_hex_digits;
use crate::text::hex_decoded;
use crate::text::utf8_bytes;

verus! {

/// Why a torrent, or one of its files, could not be had.
#[derive(Clone, Copy, Debug, PartialEq, Eq, Structural)]
pub enum TorrentError {
    /// The identifier is not a well-formed content hash.
    InvalidHash,
    /// The engine does not manage a torrent with this identifier.
    TorrentNotFound,
    /// The torrent's piece and file lengths do not fit together.
    InvalidLengths,
    /// The torrent has no file with this index.
    FileNotFound,
}

impl TorrentError {
    /// The HTTP status that goes with the failure.
    pub open spec fn spec_status(self) -> u16 {
        match self {
            TorrentError::InvalidHash => 400,
            TorrentError::TorrentNotFound => 404,
            TorrentError::InvalidLengths => 500,
            TorrentError::FileNotFound => 404,
        }
    }

    /// The stable machine-readable code of the failure.
    pub open spec fn spec_code(self) -> Seq<char> {
        match self {
            TorrentError::InvalidHash => "invalid_hash"@,
            TorrentError::TorrentNotFound => "torrent_not_found"@,
            TorrentError::InvalidLengths => "invalid_lengths"@,
            TorrentError::FileNotFound => "file_not_found"@,
        }
    }

    /// The human-readable message of the failure.
    pub open spec fn spec_message(self) -> Seq<char> {
        match self {
            TorrentError::InvalidHash => "Invalid torrents hash"@,
            TorrentError::TorrentNotFound => "Torrent not found"@,
            TorrentError::InvalidLengths => "Invalid lengths"@,
            TorrentError::FileNotFound => "File not found"@,
        }
    }

    /// The HTTP status and the machine-readable code of the failure.
    pub fn get_codes(&self) -> (r: (u16, &'static str))
        ensures
            r.0 == self.spec_status(),
            r.1@ == self.spec_code(),
    {
        match self {
            TorrentError::InvalidHash => (400, "invalid_hash"),
            TorrentError::TorrentNotFound => (404, "torrent_not_found"),
            TorrentError::InvalidLengths => (500, "invalid_lengths"),
            TorrentError::FileNotFound => (404, "file_not_found"),
        }
    }

    /// The human-readable message of the failure.
    pub fn message(&self) -> (r: &'static str)
        ensures
            r@ == self.spec_message(),
    {
        match self {
            TorrentError::InvalidHash => "Invalid torrents hash",
            TorrentError::TorrentNotFound => "Torrent not found",
            TorrentError::InvalidLengths => "Invalid lengths",
            TorrentError::FileNotFound => "File not found",
        }
    }
}

/// Length of a content hash, in bytes.
pub const HASH_LENGTH: usize = 20;

/// The content hash that names a torrent.
#[derive(Clone, Copy, Debug, PartialEq, Eq)]
pub struct TorrentId {
    pub bytes: [u8; 20],
}

/// Names one file of one torrent.
#[derive(Clone, Copy, Debug, PartialEq, Eq)]
pub struct TorrentFileRef {
    pub torrent_id: TorrentId,
    pub file_index: usize,
}

/// True when `text` is a well-formed identifier: forty hexadecimal digits.
pub open spec fn is_content_hash(text: Seq<char>) -> bool {
    utf8_bytes(text).len() == 2 * HASH_LENGTH && all_hex_digits(utf8_bytes(text))
}

/// The content hash that a well-formed identifier denotes.
pub open spec fn content_hash(text: Seq<char>) -> Seq<u8> {
    hex_decoded(utf8_bytes(text))
}

/// Calls `Id20::from_str` of `librqbit_core` on a text of forty bytes. On
/// such a text the engine decodes hexadecimal digits, two to a byte, and
/// fails when a byte is no hexadecimal digit. Texts of other lengths, which
/// the engine reads as base 32 or rejects, are not passed to it.
#[verifier::external_body]
fn id20_from_hex(text: &str) -> (id: Option<[u8; 20]>)
    requires
        utf8_bytes(text@).len() == 40,
    ensures
        id is Some <==> all_hex_digits(utf8_bytes(text@)),
        id matches Some(bytes) ==> bytes@ == hex_decoded(utf8_bytes(text@)),
{
    match Id20::from_str(text) {
        Ok(id) => Some(id.0),
        Err(_) => None,
    }
}

/// Reads a torrent identifier. Anything but forty hexadecimal digits is
/// `InvalidHash`.
pub fn parse_torrent_id(hash: &str) -> (r: Result<TorrentId, TorrentError>)
    ensures
        match r {
            Ok(id) => is_content_hash(hash@) && id.bytes@ == content_hash(hash@),
            Err(e) => !is_content_hash(hash@) && e == TorrentError::InvalidHash,
        },
{
    if hash.as_bytes().len() != 2 * HASH_LENGTH {
        return Err(TorrentError::InvalidHash);
    }
    match id20_from_hex(hash) {
        Some(bytes) => Ok(TorrentId { bytes }),
        None => Err(TorrentError::InvalidHash),
    }
}

/// Reads the reference to one file of a torrent.
pub fn parse_file_ref(hash: &str, file_index: usize) -> (r: Result<TorrentFileRef, TorrentError>)
    ensures
        match r {
            Ok(file) => {
                &&& is_content_hash(hash@)
                &&& file.torrent_id.bytes@ == content_hash(hash@)
                &&& file.file_index == file_index
            },
            Err(e) => !is_content_hash(hash@) && e == TorrentError::InvalidHash,
        },
{
    match parse_torrent_id(hash) {
        Ok(torrent_id) => Ok(TorrentFileRef { torrent_id, file_index }),
        Err(e) => Err(e),
    }
}

/// What the engine holds under an identifier, or `TorrentNotFound` when it
/// holds nothing.
pub fn get_torrent_handle<T>(found: Option<T>) -> (r: Result<T, TorrentError>)
    ensures
        match r {
            Ok(handle) => found == Some(handle),
            Err(e) => found is None && e == TorrentError::TorrentNotFound,
        },
{
    match found {
        Some(handle) => Ok(handle),
        None => Err(TorrentError::TorrentNotFound),
    }
}

} // verus!
