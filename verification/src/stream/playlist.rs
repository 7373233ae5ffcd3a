//! The playlist of a torrent: its playable files, in the byte-wise order of
//! their URL-encoded names, one absolute URL to a line.

use mime_guess::mime::Mime;
use vstd::prelude::*;
use vstd::seq_lib::to_multiset_build;
use vstd::seq_lib::to_multiset_contains;
use vstd::seq_lib::to_multiset_insert;
use vstd::seq_lib::to_multiset_len;
use vstd::seq_lib::to_multiset_remove;
use vstd::string::StringExecFns;
use vstd::utf8::encode_utf8_decode_utf8;

use crate::text::bytes_le;
use crate::text::decimal_chars;
use crate::text::lemma_bytes_le_antisymmetric;
use crate::text::lemma_bytes_le_reflexive;
use crate::text::lemma_bytes_le_total;
use crate::text::lemma_bytes_le_transitive;
use crate::text::str_le;
use crate::text::u64_to_decimal;
use crate::text::upper_hex_digit;
use crate::text::utf8_bytes;

verus! {

/// The media type of a playlist.
pub const PLAYLIST_CONTENT_TYPE: &'static str = "application/mpegurl; charset=utf-8";

/// The `Content-Disposition` of a playlist.
pub const PLAYLIST_DISPOSITION: &'static str = "attachment; filename=\"hypertube-playlist.m3u8\"";

/// The path under which files are streamed.
pub const STREAM_BASE_PATH: &'static str = "v1/stream";

/// The top-level media type under which files are playable.
pub const PLAYABLE_TYPE: &'static str = "video";

/// One file of a torrent: its index in the torrent and its name, the
/// components of its path joined by `/`.
#[derive(Debug)]
pub struct TorrentFile {
    pub index: usize,
    pub name: String,
}

/// A [`TorrentFile`] as a mathematical value.
pub struct TorrentFileView {
    pub index: usize,
    pub name: Seq<char>,
}

impl View for TorrentFile {
    type V = TorrentFileView;

    open spec fn view(&self) -> TorrentFileView {
        TorrentFileView { index: self.index, name: self.name@ }
    }
}

/// One line of a playlist: a playable file, by its index in the torrent and
/// its URL-encoded name.
#[derive(Debug)]
pub struct PlaylistEntry {
    pub file_index: usize,
    pub filename: String,
}

/// A [`PlaylistEntry`] as a mathematical value.
pub struct PlaylistEntryView {
    pub file_index: usize,
    pub filename: Seq<char>,
}

impl View for PlaylistEntry {
    type V = PlaylistEntryView;

    open spec fn view(&self) -> PlaylistEntryView {
        PlaylistEntryView { file_index: self.file_index, filename: self.filename@ }
    }
}

/// The top-level media type, such as `video` or `text`, that the media type
/// table of `mime_guess` gives for the extension of a file name; `None`
/// where the name has no extension or the table does not know it.
pub uninterp spec fn guessed_top_level_type(filename: Seq<char>) -> Option<Seq<char>>;

/// Calls `mime_guess::from_path` and takes the first media type of the
/// guess, as text, then parses it with the parser of `mime` and takes its
/// top-level type, which that parser gives in lower case. Nothing is
/// claimed of the result but that it depends on the file name alone. Where
/// the table's entry does not parse the result is `None`.
#[verifier::external_body]
fn guess_top_level_type(filename: &str) -> (kind: Option<String>)
    ensures
        match kind {
            Some(text) => guessed_top_level_type(filename@) == Some(text@),
            None => guessed_top_level_type(filename@) is None,
        },
{
    match mime_guess::from_path(filename).first_raw() {
        Some(raw) => match raw.parse::<Mime>() {
            Ok(mime) => Some(mime.type_().as_str().to_owned()),
            Err(_) => None,
        },
        None => None,
    }
}

/// True for the bytes that URL encoding leaves as they are: ASCII letters
/// and digits, `-`, `.`, `_` and `~`.
pub open spec fn is_unreserved(b: u8) -> bool {
    ||| 48 <= b <= 57
    ||| 65 <= b <= 90
    ||| 97 <= b <= 122
    ||| b == 45
    ||| b == 46
    ||| b == 95
    ||| b == 126
}

/// The URL encoding of one byte: the byte itself when it is unreserved,
/// else `%` and its two upper-case hexadecimal digits.
pub open spec fn percent_encoded_byte(b: u8) -> Seq<u8> {
    if is_unreserved(b) {
        seq![b]
    } else {
        seq![37u8, upper_hex_digit(b as int / 16), upper_hex_digit(b as int % 16)]
    }
}

/// The URL encoding of a byte string.
pub open spec fn percent_encoded(bytes: Seq<u8>) -> Seq<u8>
    decreases bytes.len(),
{
    if bytes.len() == 0 {
        Seq::empty()
    } else {
        percent_encoded_byte(bytes[0]) + percent_encoded(bytes.drop_first())
    }
}

/// The URL encoding of a text: the encoding of its UTF-8 bytes, which is
/// ASCII, as text.
pub open spec fn url_encoded(text: Seq<char>) -> Seq<char> {
    percent_encoded(utf8_bytes(text)).map_values(|b: u8| b as char)
}

/// Calls `urlencoding::encode`, which percent-encodes every byte of a
/// text's UTF-8 form except ASCII letters and digits, `-`, `.`, `_` and `~`,
/// with upper-case hexadecimal digits.
#[verifier::external_body]
fn url_encode(text: &str) -> (encoded: String)
    ensures
        encoded@ == url_encoded(text@),
{
    urlencoding::encode(text).into_owned()
}

/// True when the file name is that of a video.
pub open spec fn is_playable(filename: Seq<char>) -> bool {
    guessed_top_level_type(filename) == Some("video"@)
}

/// Decides from a top-level media type whether a file is playable.
pub fn is_playable_type(kind: &Option<String>) -> (playable: bool)
    ensures
        playable == (match kind {
            Some(text) => text@ == "video"@,
            None => false,
        }),
{
    match kind {
        Some(text) => *text == PLAYABLE_TYPE.to_owned(),
        None => false,
    }
}

/// Decides from its name whether a file is playable.
pub fn is_playable_file(filename: &str) -> (playable: bool)
    ensures
        playable == is_playable(filename@),
{
    let kind = guess_top_level_type(filename);
    is_playable_type(&kind)
}

/// The playlist entry of a file.
pub open spec fn entry_of(file: TorrentFileView) -> PlaylistEntryView {
    PlaylistEntryView { file_index: file.index, filename: url_encoded(file.name) }
}

/// The entries of the playable files among `files`, in the order of the
/// files.
pub open spec fn playable_entries(files: Seq<TorrentFileView>) -> Seq<PlaylistEntryView>
    decreases files.len(),
{
    if files.len() == 0 {
        Seq::empty()
    } else if is_playable(files.last().name) {
        playable_entries(files.drop_last()).push(entry_of(files.last()))
    } else {
        playable_entries(files.drop_last())
    }
}

/// The order of a playlist: by the bytes of the encoded name, and by the
/// index in the torrent where two names are equal.
pub open spec fn entry_le(a: PlaylistEntryView, b: PlaylistEntryView) -> bool {
    if a.filename == b.filename {
        a.file_index <= b.file_index
    } else {
        bytes_le(utf8_bytes(a.filename), utf8_bytes(b.filename))
    }
}

/// True when the entries stand in the order of a playlist.
pub open spec fn is_sorted(entries: Seq<PlaylistEntryView>) -> bool {
    forall|i: int, j: int|
        0 <= i < j < entries.len() ==> entry_le(#[trigger] entries[i], #[trigger] entries[j])
}

/// The mathematical values of a list of files.
pub open spec fn file_views(files: Seq<TorrentFile>) -> Seq<TorrentFileView> {
    files.map_values(|f: TorrentFile| f@)
}

/// The mathematical values of a list of entries.
pub open spec fn entry_views(entries: Seq<PlaylistEntry>) -> Seq<PlaylistEntryView> {
    entries.map_values(|e: PlaylistEntry| e@)
}

/// Texts with the same UTF-8 bytes are the same text.
pub proof fn lemma_utf8_injective(a: Seq<char>, b: Seq<char>)
    requires
        utf8_bytes(a) == utf8_bytes(b),
    ensures
        a == b,
{
    encode_utf8_decode_utf8(a);
    encode_utf8_decode_utf8(b);
}

/// Any two entries are comparable.
pub proof fn lemma_entry_le_total(a: PlaylistEntryView, b: PlaylistEntryView)
    ensures
        entry_le(a, b) || entry_le(b, a),
{
    lemma_bytes_le_total(utf8_bytes(a.filename), utf8_bytes(b.filename));
}

/// Two entries that precede each other are the same entry.
pub proof fn lemma_entry_le_antisymmetric(a: PlaylistEntryView, b: PlaylistEntryView)
    requires
        entry_le(a, b),
        entry_le(b, a),
    ensures
        a == b,
{
    if a.filename != b.filename {
        lemma_bytes_le_antisymmetric(utf8_bytes(a.filename), utf8_bytes(b.filename));
        lemma_utf8_injective(a.filename, b.filename);
    }
}

/// The order of a playlist is transitive.
pub proof fn lemma_entry_le_transitive(
    a: PlaylistEntryView,
    b: PlaylistEntryView,
    c: PlaylistEntryView,
)
    requires
        entry_le(a, b),
        entry_le(b, c),
    ensures
        entry_le(a, c),
{
    let x = utf8_bytes(a.filename);
    let y = utf8_bytes(b.filename);
    let z = utf8_bytes(c.filename);
    lemma_bytes_le_reflexive(x);
    lemma_bytes_le_reflexive(y);
    if a.filename == b.filename {
    } else if b.filename == c.filename {
    } else {
        lemma_bytes_le_transitive(x, y, z);
        if a.filename == c.filename {
            lemma_bytes_le_antisymmetric(x, y);
            lemma_utf8_injective(a.filename, b.filename);
        }
    }
}

/// Compares two entries in the order of a playlist.
pub fn entry_le_exec(a: &PlaylistEntry, b: &PlaylistEntry) -> (r: bool)
    ensures
        r == entry_le(a@, b@),
{
    if a.filename == b.filename {
        a.file_index <= b.file_index
    } else {
        str_le(a.filename.as_str(), b.filename.as_str())
    }
}

fn insert_sorted(entries: &mut Vec<PlaylistEntry>, entry: PlaylistEntry)
    requires
        is_sorted(entry_views(old(entries)@)),
    ensures
        is_sorted(entry_views(final(entries)@)),
        entry_views(final(entries)@).to_multiset() == entry_views(old(entries)@).to_multiset().insert(
            entry@,
        ),
{
    let ghost before = entry_views(entries@);
    let mut at: usize = 0;
    while at < entries.len() && entry_le_exec(&entries[at], &entry)
        invariant
            at <= entries.len(),
            entries@ == old(entries)@,
            before == entry_views(entries@),
            forall|k: int| 0 <= k < at ==> entry_le(#[trigger] before[k], entry@),
        decreases entries.len() - at,
    {
        at = at + 1;
    }
    let ghost value = entry@;
    entries.insert(at, entry);
    proof {
        let after = entry_views(entries@);
        assert(after =~= before.insert(at as int, value));
        to_multiset_insert(before, at as int, value);
        assert forall|i: int, j: int| 0 <= i < j < after.len() implies entry_le(
            #[trigger] after[i],
            #[trigger] after[j],
        ) by {
            if j < at {
                assert(after[i] == before[i] && after[j] == before[j]);
            } else if j == at {
                assert(after[i] == before[i]);
            } else if i == at {
                // `value` precedes the entry at which the scan stopped, and
                // with it every entry after that one.
                assert(after[j] == before[j - 1]);
                lemma_entry_le_total(before[at as int], value);
                if j - 1 > at {
                    lemma_entry_le_transitive(value, before[at as int], before[j - 1]);
                }
            } else if i < at {
                assert(after[i] == before[i] && after[j] == before[j - 1]);
            } else {
                assert(after[i] == before[i - 1] && after[j] == before[j - 1]);
            }
        }
    }
}

/// The entries of a torrent's playable files, URL-encoded and in the order
/// of a playlist.
pub fn create_torrent_playlist_items(files: &Vec<TorrentFile>) -> (entries: Vec<PlaylistEntry>)
    ensures
        is_sorted(entry_views(entries@)),
        entry_views(entries@).to_multiset() == playable_entries(file_views(files@)).to_multiset(),
{
    let mut entries: Vec<PlaylistEntry> = Vec::new();
    let ghost all = file_views(files@);
    let mut i: usize = 0;
    assert(all.take(0) =~= Seq::empty());
    assert(entry_views(entries@) =~= Seq::empty());
    while i < files.len()
        invariant
            i <= files.len(),
            all == file_views(files@),
            is_sorted(entry_views(entries@)),
            entry_views(entries@).to_multiset() == playable_entries(all.take(i as int)).to_multiset(),
        decreases files.len() - i,
    {
        let file = &files[i];
        proof {
            assert(all.take(i + 1).drop_last() =~= all.take(i as int));
            assert(all.take(i + 1).last() == file@);
        }
        if is_playable_file(file.name.as_str()) {
            let entry = PlaylistEntry {
                file_index: file.index,
                filename: url_encode(file.name.as_str()),
            };
            proof {
                to_multiset_build(playable_entries(all.take(i as int)), entry@);
            }
            insert_sorted(&mut entries, entry);
        }
        i = i + 1;
    }
    assert(all.take(files.len() as int) =~= all);
    entries
}

/// The URL under which one entry of the playlist of torrent `torrent_id`
/// is streamed from `host`.
pub open spec fn entry_url(
    host: Seq<char>,
    base_path: Seq<char>,
    torrent_id: Seq<char>,
    entry: PlaylistEntryView,
) -> Seq<char> {
    "http://"@ + host + "/"@ + base_path + "/"@ + torrent_id + "/"@ + decimal_chars(
        entry.file_index as nat,
    ) + "/"@ + entry.filename
}

/// The lines of the entries of a playlist, each ended by CR LF.
pub open spec fn playlist_lines(
    host: Seq<char>,
    base_path: Seq<char>,
    torrent_id: Seq<char>,
    entries: Seq<PlaylistEntryView>,
) -> Seq<char>
    decreases entries.len(),
{
    if entries.len() == 0 {
        Seq::empty()
    } else {
        playlist_lines(host, base_path, torrent_id, entries.drop_last()) + entry_url(
            host,
            base_path,
            torrent_id,
            entries.last(),
        ) + "\r\n"@
    }
}

/// The text of a playlist: the line `#EXTM3U`, then one line for each entry.
pub open spec fn playlist_text(
    host: Seq<char>,
    base_path: Seq<char>,
    torrent_id: Seq<char>,
    entries: Seq<PlaylistEntryView>,
) -> Seq<char> {
    "#EXTM3U\r\n"@ + playlist_lines(host, base_path, torrent_id, entries)
}

/// Builds [`entry_url`].
pub fn entry_url_of(host: &str, base_path: &str, torrent_id: &str, entry: &PlaylistEntry) -> (url:
    String)
    ensures
        url@ == entry_url(host@, base_path@, torrent_id@, entry@),
{
    let mut url = "http://".to_owned();
    url.append(host);
    url.append("/");
    url.append(base_path);
    url.append("/");
    url.append(torrent_id);
    url.append("/");
    url.append(u64_to_decimal(entry.file_index as u64).as_str());
    url.append("/");
    url.append(entry.filename.as_str());
    url
}

/// Writes the playlist of the given entries.
pub fn render_playlist(
    host: &str,
    base_path: &str,
    torrent_id: &str,
    entries: &Vec<PlaylistEntry>,
) -> (body: String)
    ensures
        body@ == playlist_text(host@, base_path@, torrent_id@, entry_views(entries@)),
{
    let mut body = "#EXTM3U\r\n".to_owned();
    let ghost all = entry_views(entries@);
    let mut i: usize = 0;
    assert(all.take(0) =~= Seq::empty());
    while i < entries.len()
        invariant
            i <= entries.len(),
            all == entry_views(entries@),
            body@ == playlist_text(host@, base_path@, torrent_id@, all.take(i as int)),
        decreases entries.len() - i,
    {
        let url = entry_url_of(host, base_path, torrent_id, &entries[i]);
        proof {
            assert(all.take(i + 1).drop_last() =~= all.take(i as int));
            assert(all.take(i + 1).last() == entries@[i as int]@);
        }
        let ghost head = body@;
        body.append(url.as_str());
        body.append("\r\n");
        assert(body@ =~= "#EXTM3U\r\n"@ + (playlist_lines(
            host@,
            base_path@,
            torrent_id@,
            all.take(i as int),
        ) + url@ + "\r\n"@));
        i = i + 1;
    }
    assert(all.take(entries.len() as int) =~= all);
    body
}

/// Two playlists of the same entries are the same playlist: the order of a
/// playlist leaves no choice.
pub proof fn lemma_sorted_entries_are_unique(a: Seq<PlaylistEntryView>, b: Seq<PlaylistEntryView>)
    requires
        is_sorted(a),
        is_sorted(b),
        a.to_multiset() == b.to_multiset(),
    ensures
        a == b,
    decreases a.len(),
{
    to_multiset_len(a);
    to_multiset_len(b);
    if a.len() == 0 {
        assert(a =~= b);
    } else {
        // The first entry of each list occurs in the other, so each
        // precedes the other.
        to_multiset_contains(a, a[0]);
        to_multiset_contains(b, a[0]);
        to_multiset_contains(a, b[0]);
        to_multiset_contains(b, b[0]);
        assert(a.contains(a[0]));
        assert(b.contains(b[0]));
        let j = choose|j: int| 0 <= j < b.len() && b[j] == a[0];
        let i = choose|i: int| 0 <= i < a.len() && a[i] == b[0];
        if i > 0 {
            assert(entry_le(a[0], a[i]));
        }
        if j > 0 {
            assert(entry_le(b[0], b[j]));
        }
        if a[0] != b[0] {
            lemma_entry_le_antisymmetric(a[0], b[0]);
        }
        to_multiset_remove(a, 0);
        to_multiset_remove(b, 0);
        assert(a.remove(0) =~= a.drop_first());
        assert(b.remove(0) =~= b.drop_first());
        let a1 = a.drop_first();
        let b1 = b.drop_first();
        assert forall|x: int, y: int| 0 <= x < y < a1.len() implies entry_le(
            #[trigger] a1[x],
            #[trigger] a1[y],
        ) by {
            assert(a1[x] == a[x + 1] && a1[y] == a[y + 1]);
        }
        assert forall|x: int, y: int| 0 <= x < y < b1.len() implies entry_le(
            #[trigger] b1[x],
            #[trigger] b1[y],
        ) by {
            assert(b1[x] == b[x + 1] && b1[y] == b[y + 1]);
        }
        lemma_sorted_entries_are_unique(a1, b1);
        assert(a =~= seq![a[0]] + a1);
        assert(b =~= seq![b[0]] + b1);
    }
}

} // verus!
