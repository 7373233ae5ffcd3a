//! The shape every search result is brought to.

use vstd::prelude::*;

use crate::pattern::lowercased;
use crate::pattern::pattern_replaced;
use crate::pattern::replace_pattern;
use crate::pattern::to_lowercase;
use crate::text::str_contains;
use crate::text::text_contains;

verus! {

/// The site a search result comes from.
#[derive(Clone, Copy, Debug, PartialEq, Eq, Structural)]
pub enum Source {
    _1337x,
    Yts,
    Eztv,
    TorrentGalaxy,
    Torlock,
    PirateBay,
    Nyaasi,
    Rarbg,
    Ettv,
    Zooqle,
    KickAss,
    Bitsearch,
    Glodls,
    MagnetDL,
    LimeTorrent,
    TorrentFunk,
    TorrentProject,
    Prowlarr,
    Unknown,
}

/// The site that an address names: the first of the known sites whose name
/// occurs in the address, `Unknown` where none does.
pub open spec fn source_of(address: Seq<char>) -> Source {
    if text_contains(address, "1337x"@) {
        Source::_1337x
    } else if text_contains(address, "yts"@) {
        Source::Yts
    } else if text_contains(address, "eztv"@) {
        Source::Eztv
    } else if text_contains(address, "torrentgalaxy"@) {
        Source::TorrentGalaxy
    } else if text_contains(address, "torlock"@) {
        Source::Torlock
    } else if text_contains(address, "piratebay"@) {
        Source::PirateBay
    } else if text_contains(address, "nyaa"@) {
        Source::Nyaasi
    } else if text_contains(address, "rarbg"@) {
        Source::Rarbg
    } else if text_contains(address, "ettv"@) {
        Source::Ettv
    } else if text_contains(address, "zooqle"@) {
        Source::Zooqle
    } else if text_contains(address, "kickass"@) {
        Source::KickAss
    } else if text_contains(address, "bitsearch"@) {
        Source::Bitsearch
    } else if text_contains(address, "glodls"@) {
        Source::Glodls
    } else if text_contains(address, "magnetdl"@) {
        Source::MagnetDL
    } else if text_contains(address, "limetorrent"@) {
        Source::LimeTorrent
    } else if text_contains(address, "torrentfunk"@) {
        Source::TorrentFunk
    } else if text_contains(address, "torrentproject"@) {
        Source::TorrentProject
    } else if text_contains(address, "prowlarr"@) {
        Source::Prowlarr
    } else {
        Source::Unknown
    }
}

impl Source {
    /// The site that an address names.
    pub fn from(value: String) -> (source: Source)
        ensures
            source == source_of(value@),
    {
        let address = value.as_str();
        if str_contains(address, "1337x") {
            Source::_1337x
        } else if str_contains(address, "yts") {
            Source::Yts
        } else if str_contains(address, "eztv") {
            Source::Eztv
        } else if str_contains(address, "torrentgalaxy") {
            Source::TorrentGalaxy
        } else if str_contains(address, "torlock") {
            Source::Torlock
        } else if str_contains(address, "piratebay") {
            Source::PirateBay
        } else if str_contains(address, "nyaa") {
            Source::Nyaasi
        } else if str_contains(address, "rarbg") {
            Source::Rarbg
        } else if str_contains(address, "ettv") {
            Source::Ettv
        } else if str_contains(address, "zooqle") {
            Source::Zooqle
        } else if str_contains(address, "kickass") {
            Source::KickAss
        } else if str_contains(address, "bitsearch") {
            Source::Bitsearch
        } else if str_contains(address, "glodls") {
            Source::Glodls
        } else if str_contains(address, "magnetdl") {
            Source::MagnetDL
        } else if str_contains(address, "limetorrent") {
            Source::LimeTorrent
        } else if str_contains(address, "torrentfunk") {
            Source::TorrentFunk
        } else if str_contains(address, "torrentproject") {
            Source::TorrentProject
        } else if str_contains(address, "prowlarr") {
            Source::Prowlarr
        } else {
            Source::Unknown
        }
    }
}

/// One search result.
#[derive(Debug)]
pub struct Torrent {
    pub name: String,
    pub torrent: Option<String>,
    pub magnet: String,
    pub seeders: i64,
    pub leechers: i64,
    pub downloads: i64,
    pub size: String,
    pub source: Source,
}

/// A [`Torrent`] as a mathematical value.
pub struct TorrentView {
    pub name: Seq<char>,
    pub torrent: Option<Seq<char>>,
    pub magnet: Seq<char>,
    pub seeders: i64,
    pub leechers: i64,
    pub downloads: i64,
    pub size: Seq<char>,
    pub source: Source,
}

/// An optional text as a mathematical value.
pub open spec fn option_text(text: Option<String>) -> Option<Seq<char>> {
    match text {
        Some(t) => Some(t@),
        None => None,
    }
}

impl View for Torrent {
    type V = TorrentView;

    open spec fn view(&self) -> TorrentView {
        TorrentView {
            name: self.name@,
            torrent: option_text(self.torrent),
            magnet: self.magnet@,
            seeders: self.seeders,
            leechers: self.leechers,
            downloads: self.downloads,
            size: self.size@,
            source: self.source,
        }
    }
}

/// The pattern of what is dropped from a searched name: every character
/// that is neither a word character nor white space.
pub const PUNCTUATION_PATTERN: &'static str = "[^\\w\\s]";

/// The form in which a name is searched: in lower case, without
/// punctuation.
pub open spec fn searched_name(name: Seq<char>) -> Option<Seq<char>> {
    pattern_replaced("[^\\w\\s]"@, lowercased(name), Seq::<char>::empty())
}

/// Brings a name to the form in which it is searched.
pub fn preprocess_name(name: &str) -> (cleaned: Option<String>)
    ensures
        match cleaned {
            Some(text) => searched_name(name@) == Some(text@),
            None => searched_name(name@) is None,
        },
{
    let lower = to_lowercase(name);
    proof {
        reveal_strlit("");
        assert(""@ =~= Seq::<char>::empty());
    }
    replace_pattern(PUNCTUATION_PATTERN, lower.as_str(), "")
}

} // verus!
