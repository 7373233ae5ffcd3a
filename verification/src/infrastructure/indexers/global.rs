//! Results of the global indexer.

use vstd::prelude::*;
use vstd::string::StringExecFns;

use crate::infrastructure::indexers::error::IndexerError;
use crate::infrastructure::indexers::indexer::option_text;
use crate::infrastructure::indexers::indexer::preprocess_name;
use crate::infrastructure::indexers::indexer::searched_name;
use crate::infrastructure::indexers::indexer::source_of;
use crate::infrastructure::indexers::indexer::Source;
use crate::infrastructure::indexers::indexer::Torrent;
use crate::infrastructure::indexers::indexer::TorrentView;
use crate::text::parse_signed;
use crate::text::parsed_signed;
use crate::text::utf8_bytes;

verus! {

/// Where the global indexer answers.
pub const API_URL: &'static str = "https://itorrentsearch.vercel.app/api";

/// One result as the global indexer sends it.
#[derive(Debug)]
pub struct ApiTorrent {
    pub name: String,
    pub category: Option<String>,
    pub url: String,
    pub size: Option<String>,
    pub seeders: Option<String>,
    pub leechers: Option<String>,
    pub downloads: Option<String>,
    pub torrent: Option<String>,
    pub magnet: Option<String>,
}

/// The number that a count sent as text stands for: the signed decimal
/// number it spells, and zero where it is absent or spells none.
pub open spec fn count_of(text: Option<String>) -> i64 {
    match text {
        Some(t) => match parsed_signed(utf8_bytes(t@)) {
            Some(n) => n,
            None => 0,
        },
        None => 0,
    }
}

/// The size of a result as sent, `Unknown` where none was sent.
pub open spec fn size_of(text: Option<String>) -> Seq<char> {
    match text {
        Some(t) => t@,
        None => "Unknown"@,
    }
}

/// Reads a count that was sent as text.
pub fn read_count(text: &Option<String>) -> (n: i64)
    ensures
        n == count_of(*text),
{
    match text {
        Some(t) => match parse_signed(t.as_str().as_bytes()) {
            Some(n) => n,
            None => 0,
        },
        None => 0,
    }
}

/// Brings a result of the global indexer to the common shape. A result
/// without a magnet link is `MissingMagnet`.
pub fn try_from(torrent: ApiTorrent) -> (r: Result<Torrent, IndexerError>)
    ensures
        match r {
            Ok(t) => torrent.magnet is Some && t@ == (TorrentView {
                name: torrent.name@,
                torrent: option_text(torrent.torrent),
                magnet: torrent.magnet->0@,
                seeders: count_of(torrent.seeders),
                leechers: count_of(torrent.leechers),
                downloads: count_of(torrent.downloads),
                size: size_of(torrent.size),
                source: source_of(torrent.url@),
            }),
            Err(e) => torrent.magnet is None && e is MissingMagnet,
        },
{
    let seeders = read_count(&torrent.seeders);
    let leechers = read_count(&torrent.leechers);
    let downloads = read_count(&torrent.downloads);
    let magnet = match torrent.magnet {
        Some(magnet) => magnet,
        None => {
            return Err(IndexerError::MissingMagnet);
        },
    };
    let size = match torrent.size {
        Some(size) => size,
        None => "Unknown".to_owned(),
    };
    Ok(
        Torrent {
            name: torrent.name,
            torrent: torrent.torrent,
            magnet,
            seeders,
            leechers,
            downloads,
            size,
            source: Source::from(torrent.url),
        },
    )
}

/// The address at which the global indexer is asked for the first page of
/// the results for a name.
pub open spec fn search_address(name: Seq<char>) -> Seq<char> {
    "https://itorrentsearch.vercel.app/api"@ + "/all/"@ + name + "/1"@
}

/// The address at which the global indexer is asked for `query`, brought
/// to the form in which names are searched.
pub fn search_url(query: &str) -> (url: Option<String>)
    ensures
        match url {
            Some(text) => searched_name(query@) matches Some(name) && text@ == search_address(
                name,
            ),
            None => searched_name(query@) is None,
        },
{
    match preprocess_name(query) {
        Some(name) => {
            let mut url = API_URL.to_owned();
            url.append("/all/");
            url.append(name.as_str());
            url.append("/1");
            Some(url)
        },
        None => None,
    }
}

/// What a result of the global indexer is in the common shape.
pub open spec fn converted(torrent: ApiTorrent) -> TorrentView {
    TorrentView {
        name: torrent.name@,
        torrent: option_text(torrent.torrent),
        magnet: torrent.magnet->0@,
        seeders: count_of(torrent.seeders),
        leechers: count_of(torrent.leechers),
        downloads: count_of(torrent.downloads),
        size: size_of(torrent.size),
        source: source_of(torrent.url@),
    }
}

/// The results that carry a magnet link, in the common shape and in the
/// order in which they were sent.
pub open spec fn usable_results(sent: Seq<ApiTorrent>) -> Seq<TorrentView>
    decreases sent.len(),
{
    if sent.len() == 0 {
        Seq::empty()
    } else if sent.last().magnet is Some {
        usable_results(sent.drop_last()).push(converted(sent.last()))
    } else {
        usable_results(sent.drop_last())
    }
}

/// The mathematical values of a list of results.
pub open spec fn torrent_views(torrents: Seq<Torrent>) -> Seq<TorrentView> {
    torrents.map_values(|t: Torrent| t@)
}

/// Brings the results of one page of the global indexer to the common
/// shape and adds them to `found`. Results without a magnet link are left
/// out.
pub fn collect_results(found: &mut Vec<Torrent>, page: Vec<ApiTorrent>)
    ensures
        torrent_views(final(found)@) == torrent_views(old(found)@) + usable_results(page@),
{
    let ghost all = page@;
    let ghost start = torrent_views(found@);
    assert(all.take(0) =~= Seq::empty());
    assert(start + Seq::<TorrentView>::empty() =~= start);
    for sent in it: page
        invariant
            it.seq() == all,
            torrent_views(found@) == start + usable_results(all.take(it.index() as int)),
    {
        proof {
            assert(all.take(it.index() + 1).drop_last() =~= all.take(it.index() as int));
            assert(all.take(it.index() + 1).last() == sent);
        }
        let ghost before = torrent_views(found@);
        match try_from(sent) {
            Ok(torrent) => {
                found.push(torrent);
                assert(torrent_views(found@) =~= before.push(converted(sent)));
                assert(before.push(converted(sent)) =~= start + usable_results(
                    all.take(it.index() as int),
                ).push(converted(sent)));
            },
            Err(_) => {},
        }
    }
    assert(all.take(all.len() as int) =~= all);
}

} // verus!
