use hypertube::error::ApiError;
use hypertube::infrastructure::torrent::get_torrent_handle;
use hypertube::infrastructure::torrent::parse_file_ref;
use hypertube::infrastructure::torrent::parse_torrent_id;
use hypertube::infrastructure::torrent::TorrentError;
use hypertube::stream::playlist::create_torrent_playlist_items;
use hypertube::stream::playlist::entry_le_exec;
use hypertube::stream::playlist::entry_url_of;
use hypertube::stream::playlist::is_playable_file;
use hypertube::stream::playlist::is_playable_type;
use hypertube::stream::playlist::render_playlist;
use hypertube::stream::playlist::PlaylistEntry;
use hypertube::stream::playlist::TorrentFile;
use hypertube::stream::playlist::PLAYLIST_CONTENT_TYPE;
use hypertube::stream::playlist::PLAYLIST_DISPOSITION;
use hypertube::stream::routes::create_playlist;
use hypertube::stream::routes::managed_torrent;
use hypertube::stream::routes::requested_file;
use hypertube::stream::routes::requested_torrent;
use hypertube::text::bytes_le_exec;
use hypertube::text::str_le;

fn files(names: &[&str]) -> Vec<TorrentFile> {
    names
        .iter()
        .enumerate()
        .map(|(index, name)| TorrentFile { index, name: name.to_string() })
        .collect()
}

fn pairs(entries: &[PlaylistEntry]) -> Vec<(usize, String)> {
    entries.iter().map(|e| (e.file_index, e.filename.clone())).collect()
}

#[test]
fn playlist_keeps_videos_in_name_order() {
    let entries = create_torrent_playlist_items(&files(&["b.mp4", "a.mkv", "readme.txt"]));
    assert_eq!(pairs(&entries), vec![(1, "a.mkv".to_string()), (0, "b.mp4".to_string())]);
}

#[test]
fn playlist_of_no_file_is_empty() {
    assert!(create_torrent_playlist_items(&Vec::new()).is_empty());
    assert!(create_torrent_playlist_items(&files(&["notes.txt", "cover.jpg", "noextension"])).is_empty());
}

#[test]
fn playlist_names_are_url_encoded() {
    let entries = create_torrent_playlist_items(&files(&["Season 1/Épisode #1.mkv"]));
    assert_eq!(pairs(&entries), vec![(0, "Season%201%2F%C3%89pisode%20%231.mkv".to_string())]);
}

#[test]
fn playlist_leaves_unreserved_bytes_alone() {
    let entries = create_torrent_playlist_items(&files(&["AZaz09-._~.mp4"]));
    assert_eq!(pairs(&entries), vec![(0, "AZaz09-._~.mp4".to_string())]);
}

#[test]
fn playlist_order_is_by_bytes_of_the_encoded_name() {
    // Upper case sorts before lower case, and `%20` before letters.
    let entries = create_torrent_playlist_items(&files(&["b.mp4", "B.mp4", "a b.mp4", "ab.mp4", "a.mp4"]));
    assert_eq!(
        pairs(&entries),
        vec![
            (1, "B.mp4".to_string()),
            (2, "a%20b.mp4".to_string()),
            (4, "a.mp4".to_string()),
            (3, "ab.mp4".to_string()),
            (0, "b.mp4".to_string()),
        ]
    );
}

#[test]
fn playlist_keeps_equal_names_in_index_order() {
    let listed = vec![
        TorrentFile { index: 7, name: "x.mp4".to_string() },
        TorrentFile { index: 3, name: "x.mp4".to_string() },
        TorrentFile { index: 5, name: "x.mp4".to_string() },
    ];
    let entries = create_torrent_playlist_items(&listed);
    assert_eq!(
        pairs(&entries),
        vec![(3, "x.mp4".to_string()), (5, "x.mp4".to_string()), (7, "x.mp4".to_string())]
    );
}

#[test]
fn playable_means_video() {
    assert!(is_playable_file("movie.mp4"));
    assert!(is_playable_file("movie.MKV"));
    assert!(is_playable_file("dir/movie.webm"));
    assert!(!is_playable_file("song.mp3"));
    assert!(!is_playable_file("readme.txt"));
    assert!(!is_playable_file("mp4"));
    assert!(!is_playable_file(""));
    assert!(is_playable_type(&Some("video".to_string())));
    assert!(!is_playable_type(&Some("Video".to_string())));
    assert!(!is_playable_type(&Some("audio".to_string())));
    assert!(!is_playable_type(&None));
}

#[test]
fn entry_order_compares_name_then_index() {
    let a = PlaylistEntry { file_index: 2, filename: "a".to_string() };
    let b = PlaylistEntry { file_index: 1, filename: "b".to_string() };
    let a2 = PlaylistEntry { file_index: 3, filename: "a".to_string() };
    assert!(entry_le_exec(&a, &b));
    assert!(!entry_le_exec(&b, &a));
    assert!(entry_le_exec(&a, &a2));
    assert!(!entry_le_exec(&a2, &a));
    assert!(entry_le_exec(&a, &a));
}

#[test]
fn byte_order_of_strings() {
    assert!(bytes_le_exec(b"", b""));
    assert!(bytes_le_exec(b"", b"a"));
    assert!(!bytes_le_exec(b"a", b""));
    assert!(bytes_le_exec(b"a", b"ab"));
    assert!(!bytes_le_exec(b"ab", b"a"));
    assert!(bytes_le_exec(b"ab", b"b"));
    assert!(bytes_le_exec(b"Z", b"a"));
    assert!(!bytes_le_exec(b"\xff", b"a"));
    assert!(str_le("a", "é"));
    assert!(!str_le("é", "z"));
    for (x, y) in [("abc", "abd"), ("", "x"), ("same", "same"), ("é", "e")] {
        assert_eq!(str_le(x, y), x <= y);
        assert_eq!(str_le(y, x), y <= x);
    }
}

#[test]
fn playlist_text_has_a_header_and_one_url_per_line() {
    let entries = create_torrent_playlist_items(&files(&["b.mp4", "a.mkv", "readme.txt"]));
    let body = render_playlist("example.org:3000", "v1/stream", "0f0f", &entries);
    assert_eq!(
        body,
        "#EXTM3U\r\nhttp://example.org:3000/v1/stream/0f0f/1/a.mkv\r\nhttp://example.org:3000/v1/stream/0f0f/0/b.mp4\r\n"
    );
}

#[test]
fn playlist_text_without_entries_is_the_header() {
    assert_eq!(render_playlist("h", "p", "t", &Vec::new()), "#EXTM3U\r\n");
}

#[test]
fn create_playlist_filters_sorts_and_writes() {
    let hash = "0f".repeat(20);
    let body = create_playlist("localhost", &hash, &files(&["b.mp4", "a.mkv", "readme.txt"]));
    let expected = format!(
        "#EXTM3U\r\nhttp://localhost/v1/stream/{h}/1/a.mkv\r\nhttp://localhost/v1/stream/{h}/0/b.mp4\r\n",
        h = hash
    );
    assert_eq!(body, expected);
}

#[test]
fn entry_url_puts_the_parts_together() {
    let entry = PlaylistEntry { file_index: 12, filename: "a%20b.mkv".to_string() };
    assert_eq!(
        entry_url_of("host", "v1/stream", "abcd", &entry),
        "http://host/v1/stream/abcd/12/a%20b.mkv"
    );
}

#[test]
fn playlist_headers() {
    assert_eq!(PLAYLIST_CONTENT_TYPE, "application/mpegurl; charset=utf-8");
    assert_eq!(PLAYLIST_DISPOSITION, "attachment; filename=\"hypertube-playlist.m3u8\"");
}

#[test]
fn well_formed_identifier_is_decoded() {
    let id = parse_torrent_id("cfe1119f124881ca70f7306f32e292194c88c195").unwrap();
    assert_eq!(
        id.bytes,
        [
            0xcf, 0xe1, 0x11, 0x9f, 0x12, 0x48, 0x81, 0xca, 0x70, 0xf7, 0x30, 0x6f, 0x32, 0xe2,
            0x92, 0x19, 0x4c, 0x88, 0xc1, 0x95
        ]
    );
    let upper = parse_torrent_id("CFE1119F124881CA70F7306F32E292194C88C195").unwrap();
    assert_eq!(upper, id);
    let file = parse_file_ref("cfe1119f124881ca70f7306f32e292194c88c195", 3).unwrap();
    assert_eq!(file.torrent_id, id);
    assert_eq!(file.file_index, 3);
}

#[test]
fn malformed_identifiers_are_invalid_hashes() {
    let long = "0f".repeat(21);
    let short = "0f".repeat(19);
    let values: Vec<&str> = vec![
        "",
        "0f",
        &long,
        &short,
        "zfe1119f124881ca70f7306f32e292194c88c195",
        "cfe1119f124881ca70f7306f32e292194c88c19 ",
        "Z7QRDHYSJCA4U4HXGBXTFYUSDFGIRQMV",
        "AAAAAAAAAAAAAAAAAAAAAAAAAA======",
        "éfe1119f124881ca70f7306f32e292194c88c19",
    ];
    for value in values {
        assert_eq!(parse_torrent_id(value), Err(TorrentError::InvalidHash));
        assert_eq!(parse_file_ref(value, 0), Err(TorrentError::InvalidHash));
        assert!(matches!(
            requested_file(value, 0),
            Err(ApiError::LibTorrentError(TorrentError::InvalidHash))
        ));
        assert!(matches!(
            requested_torrent(value),
            Err(ApiError::LibTorrentError(TorrentError::InvalidHash))
        ));
    }
}

#[test]
fn unknown_torrent_is_not_found() {
    let hash = "0f".repeat(20);
    // The identifier is well formed, so the request reaches the engine.
    assert!(requested_file(&hash, 0).is_ok());
    assert!(requested_torrent(&hash).is_ok());
    // The engine does not know it: streaming and playlist requests alike
    // end in `TorrentNotFound`.
    assert_eq!(get_torrent_handle(None::<u8>), Err(TorrentError::TorrentNotFound));
    assert!(matches!(
        managed_torrent(None::<u8>),
        Err(ApiError::LibTorrentError(TorrentError::TorrentNotFound))
    ));
    assert_eq!(managed_torrent(Some(7u8)).unwrap(), 7);
}
