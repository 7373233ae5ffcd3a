//! The search for the torrents of a show: under which titles to search, and
//! how the results of the searches are put together.

use vstd::prelude::*;
use vstd::string::StringExecFns;

use crate::infrastructure::indexers::indexer::Torrent;
use crate::infrastructure::indexers::indexer::TorrentView;
use crate::infrastructure::metadata::models::AlternativeTitle;
use crate::infrastructure::metadata::models::AlternativeTitleView;
use crate::table::is_last_row_of;
use crate::table::lemma_table_push;
use crate::table::lemma_table_update;
use crate::table::table_map;

verus! {

/// True for the alternative titles under which torrents are searched:
/// British ones, American ones, and Japanese ones in Latin letters.
pub open spec fn is_search_title(title: AlternativeTitleView) -> bool {
    ||| title.iso_3166_1 == "GB"@
    ||| title.iso_3166_1 == "US"@
    ||| title.iso_3166_1 == "JP"@ && (title.title_type == "romaji"@ || title.title_type
        == "romanization"@)
}

/// The alternative titles under which torrents are searched, in the order
/// of the titles.
pub open spec fn kept_titles(titles: Seq<AlternativeTitleView>) -> Seq<Seq<char>>
    decreases titles.len(),
{
    if titles.len() == 0 {
        Seq::empty()
    } else if is_search_title(titles.last()) {
        kept_titles(titles.drop_last()).push(titles.last().title)
    } else {
        kept_titles(titles.drop_last())
    }
}

/// The titles under which the torrents of a show are searched: its name,
/// then its alternative titles as far as they are kept.
pub open spec fn search_titles(name: Seq<char>, titles: Option<Seq<AlternativeTitleView>>) -> Seq<
    Seq<char>,
> {
    match titles {
        Some(titles) => seq![name] + kept_titles(titles),
        None => seq![name],
    }
}

/// The mathematical values of a list of alternative titles.
pub open spec fn title_views(titles: Seq<AlternativeTitle>) -> Seq<AlternativeTitleView> {
    titles.map_values(|t: AlternativeTitle| t@)
}

/// The views of a list of texts.
pub open spec fn text_views(texts: Seq<String>) -> Seq<Seq<char>> {
    texts.map_values(|t: String| t@)
}

/// An optional list of alternative titles as a mathematical value.
pub open spec fn optional_title_views(titles: Option<Vec<AlternativeTitle>>) -> Option<
    Seq<AlternativeTitleView>,
> {
    match titles {
        Some(titles) => Some(title_views(titles@)),
        None => None,
    }
}

fn is_search_title_exec(title: &AlternativeTitle) -> (kept: bool)
    ensures
        kept == is_search_title(title@),
{
    let country = &title.iso_3166_1;
    if *country == "GB".to_owned() || *country == "US".to_owned() {
        true
    } else if *country == "JP".to_owned() {
        title.title_type == "romaji".to_owned() || title.title_type == "romanization".to_owned()
    } else {
        false
    }
}

/// The titles under which the torrents of a show are searched.
pub fn show_titles(name: &str, titles: &Option<Vec<AlternativeTitle>>) -> (found: Vec<String>)
    ensures
        text_views(found@) == search_titles(name@, optional_title_views(*titles)),
{
    let mut found: Vec<String> = Vec::new();
    found.push(name.to_owned());
    assert(text_views(found@) =~= seq![name@]);
    match titles {
        None => {},
        Some(all) => {
            let ghost views = title_views(all@);
            let mut i: usize = 0;
            assert(views.take(0) =~= Seq::empty());
            assert(seq![name@] + Seq::<Seq<char>>::empty() =~= seq![name@]);
            while i < all.len()
                invariant
                    i <= all.len(),
                    views == title_views(all@),
                    text_views(found@) == seq![name@] + kept_titles(views.take(i as int)),
                decreases all.len() - i,
            {
                proof {
                    assert(views.take(i + 1).drop_last() =~= views.take(i as int));
                    assert(views.take(i + 1).last() == all@[i as int]@);
                }
                if is_search_title_exec(&all[i]) {
                    let ghost before = text_views(found@);
                    found.push(all[i].title.clone());
                    assert(text_views(found@) =~= before.push(all@[i as int].title@));
                    assert(before.push(all@[i as int].title@) =~= seq![name@] + kept_titles(
                        views.take(i as int),
                    ).push(all@[i as int].title@));
                }
                i = i + 1;
            }
            assert(views.take(all.len() as int) =~= views);
        },
    }
    found
}

/// The words a search is made with: the title, a blank, and the further
/// words of the request where it has any.
pub open spec fn search_words(title: Seq<char>, params: Option<Seq<char>>) -> Seq<char> {
    title + " "@ + match params {
        Some(words) => words,
        None => Seq::<char>::empty(),
    }
}

/// The words a search is made with.
pub fn search_query(title: &str, params: &Option<String>) -> (query: String)
    ensures
        query@ == search_words(
            title@,
            match params {
                Some(words) => Some(words@),
                None => None,
            },
        ),
{
    let mut query = title.to_owned();
    query.append(" ");
    match params {
        Some(words) => {
            query.append(words.as_str());
        },
        None => {
            assert(query@ + Seq::<char>::empty() =~= query@);
        },
    }
    query
}

/// The results as rows keyed by the name of the torrent.
pub open spec fn named_rows(torrents: Seq<Torrent>) -> Seq<(Seq<char>, TorrentView)> {
    torrents.map_values(|t: Torrent| (t.name@, t@))
}

/// True when no two of the results carry the same name.
pub open spec fn names_are_distinct(torrents: Seq<Torrent>) -> bool {
    forall|i: int, j: int|
        0 <= i < j < torrents.len() ==> (#[trigger] torrents[i]).name@ != (
        #[trigger] torrents[j]).name@
}

fn find_name(merged: &Vec<Torrent>, name: &String) -> (found: Option<usize>)
    ensures
        match found {
            Some(i) => i < merged.len() && merged@[i as int].name@ == name@,
            None => forall|j: int| 0 <= j < merged.len() ==> (#[trigger] merged@[j]).name@ != name@,
        },
{
    let mut i: usize = 0;
    while i < merged.len()
        invariant
            i <= merged.len(),
            forall|j: int| 0 <= j < i ==> (#[trigger] merged@[j]).name@ != name@,
        decreases merged.len() - i,
    {
        if merged[i].name == *name {
            return Some(i);
        }
        i = i + 1;
    }
    None
}

/// Puts the results of several searches together: of the results that
/// carry one name only the last is kept. In which order the kept results
/// stand is left open.
pub fn merge_torrents(found: Vec<Torrent>) -> (merged: Vec<Torrent>)
    ensures
        names_are_distinct(merged@),
        table_map(named_rows(merged@)) == table_map(named_rows(found@)),
{
    let mut merged: Vec<Torrent> = Vec::new();
    let ghost all = found@;
    assert(named_rows(all.take(0)) =~= Seq::empty());
    assert(named_rows(merged@) =~= Seq::empty());
    for torrent in it: found
        invariant
            it.seq() == all,
            names_are_distinct(merged@),
            table_map(named_rows(merged@)) == table_map(named_rows(all.take(it.index() as int))),
    {
        let ghost before = merged@;
        let ghost rows = named_rows(before);
        let ghost key = torrent.name@;
        let ghost value = torrent@;
        proof {
            assert(all.take(it.index() + 1) =~= all.take(it.index() as int).push(torrent));
            assert(named_rows(all.take(it.index() + 1)) =~= named_rows(
                all.take(it.index() as int),
            ).push((key, value)));
            lemma_table_push(named_rows(all.take(it.index() as int)), key, value);
        }
        match find_name(&merged, &torrent.name) {
            Some(i) => {
                merged.set(i, torrent);
                proof {
                    assert(rows[i as int].0 == key);
                    assert forall|j: int| i < j < rows.len() implies (#[trigger] rows[j]).0
                        != key by {
                        assert(before[i as int].name@ != before[j].name@);
                    }
                    assert(is_last_row_of(rows, i as int, key));
                    lemma_table_update(rows, i as int, key, value);
                    assert(named_rows(merged@) =~= rows.update(i as int, (key, value)));
                    assert forall|x: int, y: int| 0 <= x < y < merged@.len() implies (
                    #[trigger] merged@[x]).name@ != (#[trigger] merged@[y]).name@ by {
                        assert(before[x].name@ != before[y].name@);
                    }
                }
            },
            None => {
                merged.push(torrent);
                proof {
                    lemma_table_push(rows, key, value);
                    assert(named_rows(merged@) =~= rows.push((key, value)));
                    assert forall|x: int, y: int| 0 <= x < y < merged@.len() implies (
                    #[trigger] merged@[x]).name@ != (#[trigger] merged@[y]).name@ by {
                        if y < before.len() {
                            assert(before[x].name@ != before[y].name@);
                        } else {
                            assert(merged@[x] == before[x]);
                        }
                    }
                }
            },
        }
    }
    assert(all.take(all.len() as int) =~= all);
    merged
}

} // verus!
