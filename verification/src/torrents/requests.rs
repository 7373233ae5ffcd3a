//! The form of the request that adds a torrent.

use vstd::prelude::*;

use crate::text::str_contains;
use crate::text::text_contains;

verus! {

/// With what a magnet link for a torrent begins.
pub const MAGNET_PREFIX: &'static str = "magnet:?xt=urn:btih:";

/// The form of a request to add a torrent by its magnet link.
#[derive(Debug)]
pub struct AddTorrentWithMagnet {
    pub magnet: String,
}

/// True when the text holds the beginning of a magnet link for a torrent.
pub open spec fn holds_magnet_link(text: Seq<char>) -> bool {
    text_contains(text, "magnet:?xt=urn:btih:"@)
}

impl AddTorrentWithMagnet {
    /// True when the form holds a magnet link for a torrent.
    pub fn is_valid(&self) -> (valid: bool)
        ensures
            valid == holds_magnet_link(self.magnet@),
    {
        str_contains(self.magnet.as_str(), MAGNET_PREFIX)
    }
}

} // verus!
