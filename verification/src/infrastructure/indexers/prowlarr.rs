//! Results of a Prowlarr instance.

use vstd::prelude::*;
use vstd::string::StringExecFns;

use crate::infrastructure::indexers::indexer::Source;
use crate::infrastructure::indexers::indexer::Torrent;
use crate::infrastructure::indexers::indexer::TorrentView;
use crate::text::i64_to_decimal;
use crate::text::signed_decimal_chars;

verus! {

/// One result as Prowlarr sends it.
#[derive(Debug)]
pub struct ProwlarrTorrent {
    pub guid: String,
    pub size: i64,
    pub indexer: String,
    pub title: String,
    pub magnet_url: String,
    pub seeders: i64,
    pub leechers: i64,
}

/// Brings a result of Prowlarr to the common shape: the title is the name,
/// the `guid` the magnet link, and the size is written in decimal.
pub fn try_from(torrent: ProwlarrTorrent) -> (t: Torrent)
    ensures
        t@ == (TorrentView {
            name: torrent.title@,
            torrent: None,
            magnet: torrent.guid@,
            seeders: torrent.seeders,
            leechers: torrent.leechers,
            downloads: 0,
            size: signed_decimal_chars(torrent.size as int),
            source: Source::Prowlarr,
        }),
{
    Torrent {
        name: torrent.title,
        torrent: None,
        magnet: torrent.guid,
        seeders: torrent.seeders,
        leechers: torrent.leechers,
        downloads: 0,
        size: i64_to_decimal(torrent.size),
        source: Source::Prowlarr,
    }
}

/// What a result of Prowlarr is in the common shape.
pub open spec fn converted(torrent: ProwlarrTorrent) -> TorrentView {
    TorrentView {
        name: torrent.title@,
        torrent: None,
        magnet: torrent.guid@,
        seeders: torrent.seeders,
        leechers: torrent.leechers,
        downloads: 0,
        size: signed_decimal_chars(torrent.size as int),
        source: Source::Prowlarr,
    }
}

/// The mathematical values of a list of results.
pub open spec fn torrent_views(torrents: Seq<Torrent>) -> Seq<TorrentView> {
    torrents.map_values(|t: Torrent| t@)
}

/// Brings the results of a search at Prowlarr to the common shape, in the
/// order in which they were sent.
pub fn convert_results(sent: Vec<ProwlarrTorrent>) -> (found: Vec<Torrent>)
    ensures
        torrent_views(found@) == sent@.map_values(|t: ProwlarrTorrent| converted(t)),
{
    let mut found: Vec<Torrent> = Vec::new();
    let ghost all = sent@;
    for torrent in it: sent
        invariant
            it.seq() == all,
            torrent_views(found@) == all.take(it.index() as int).map_values(
                |t: ProwlarrTorrent| converted(t),
            ),
    {
        let ghost before = torrent_views(found@);
        found.push(try_from(torrent));
        assert(torrent_views(found@) =~= before.push(converted(torrent)));
        assert(all.take(it.index() + 1) =~= all.take(it.index() as int).push(torrent));
    }
    assert(all.take(all.len() as int) =~= all);
    found
}

/// The address at which a Prowlarr instance is searched.
pub fn search_url(api_url: &str) -> (url: String)
    ensures
        url@ == api_url@ + "/search"@,
{
    let mut url = api_url.to_owned();
    url.append("/search");
    url
}

/// The `Authorization` header that a Prowlarr instance asks for.
pub fn authorization_header(api_key: &str) -> (header: String)
    ensures
        header@ == "Bearer "@ + api_key@,
{
    let mut header = "Bearer ".to_owned();
    header.append(api_key);
    header
}

} // verus!
