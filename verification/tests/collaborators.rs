use hypertube::config::log_level;
use hypertube::config::Config;
use hypertube::config::CookieConfig;
use hypertube::config::LogLevel;
use hypertube::config::SameSitePolicy;
use hypertube::config::DEFAULT_HOST;
use hypertube::config::DEFAULT_PORT;
use hypertube::database::database_address;
use hypertube::infrastructure::indexers::error::IndexerError;
use hypertube::infrastructure::indexers::global::collect_results;
use hypertube::infrastructure::indexers::global::read_count;
use hypertube::infrastructure::indexers::global::search_url;
use hypertube::infrastructure::indexers::global::try_from;
use hypertube::infrastructure::indexers::global::ApiTorrent;
use hypertube::infrastructure::indexers::indexer::preprocess_name;
use hypertube::infrastructure::indexers::indexer::Source;
use hypertube::infrastructure::indexers::indexer::Torrent;
use hypertube::infrastructure::indexers::prowlarr::authorization_header;
use hypertube::infrastructure::indexers::prowlarr::convert_results;
use hypertube::infrastructure::indexers::prowlarr::ProwlarrTorrent;
use hypertube::infrastructure::metadata::meta::ShowType;
use hypertube::infrastructure::metadata::models::AlternativeTitle;
use hypertube::infrastructure::metadata::providers::tvdb::config::search_language;
use hypertube::infrastructure::metadata::providers::tvdb::config::TvdbConfig;
use hypertube::infrastructure::metadata::providers::tvdb::tvdb::filter_aliases;
use hypertube::infrastructure::metadata::providers::tvdb::tvdb::show_type_of;
use hypertube::infrastructure::metadata::providers::tvdb::tvdb::Alias;
use hypertube::infrastructure::metadata::tmdb::language_or_default;
use hypertube::infrastructure::metadata::tmdb::movie_path;
use hypertube::infrastructure::metadata::tmdb::movie_videos_path;
use hypertube::infrastructure::metadata::tmdb::request_url;
use hypertube::infrastructure::metadata::tmdb::tv_path;
use hypertube::infrastructure::metadata::tmdb::tv_season_path;
use hypertube::infrastructure::metadata::tmdb::tv_videos_path;
use hypertube::infrastructure::models::user::sign_in_with;
use hypertube::infrastructure::models::user::DbUser;
use hypertube::infrastructure::models::user::SignIn;
use hypertube::infrastructure::models::user::User;
use hypertube::infrastructure::models::user::UserInsert;
use hypertube::infrastructure::models::user::UserUpdate;
use hypertube::infrastructure::oauth::FtUser;
use hypertube::server::health;
use hypertube::shows::routes::merge_torrents;
use hypertube::shows::routes::search_query;
use hypertube::shows::routes::show_titles;
use hypertube::text::bytes_contain_exec;
use hypertube::text::i64_to_decimal;
use hypertube::text::parse_signed;
use hypertube::text::str_contains;
use hypertube::torrents::requests::AddTorrentWithMagnet;
use hypertube::transcode::limiter::Limiter;
use hypertube::users::error::UserError;
use hypertube::users::requests::PatchUser;
use hypertube::users::requests::RegisterUser;

fn api_torrent(name: &str, url: &str, magnet: Option<&str>) -> ApiTorrent {
    ApiTorrent {
        name: name.to_string(),
        category: None,
        url: url.to_string(),
        size: Some("1.4 GB".to_string()),
        seeders: Some("12".to_string()),
        leechers: Some("-3".to_string()),
        downloads: Some("many".to_string()),
        torrent: None,
        magnet: magnet.map(|m| m.to_string()),
    }
}

fn torrent(name: &str, seeders: i64) -> Torrent {
    Torrent {
        name: name.to_string(),
        torrent: None,
        magnet: format!("magnet:{}", name),
        seeders,
        leechers: 0,
        downloads: 0,
        size: "1".to_string(),
        source: Source::Prowlarr,
    }
}

#[test]
fn source_is_the_first_site_named() {
    assert_eq!(Source::from("https://1337x.to/torrent/1".to_string()), Source::_1337x);
    assert_eq!(Source::from("https://yts.mx/movie".to_string()), Source::Yts);
    assert_eq!(Source::from("https://eztv.re".to_string()), Source::Eztv);
    assert_eq!(Source::from("https://torrentgalaxy.to".to_string()), Source::TorrentGalaxy);
    assert_eq!(Source::from("https://torlock.com".to_string()), Source::Torlock);
    assert_eq!(Source::from("https://thepiratebay.org".to_string()), Source::PirateBay);
    assert_eq!(Source::from("https://nyaa.si".to_string()), Source::Nyaasi);
    assert_eq!(Source::from("https://rarbg.to".to_string()), Source::Rarbg);
    assert_eq!(Source::from("https://ettv.tv".to_string()), Source::Ettv);
    assert_eq!(Source::from("https://zooqle.com".to_string()), Source::Zooqle);
    assert_eq!(Source::from("https://kickass.to".to_string()), Source::KickAss);
    assert_eq!(Source::from("https://bitsearch.to".to_string()), Source::Bitsearch);
    assert_eq!(Source::from("https://glodls.to".to_string()), Source::Glodls);
    assert_eq!(Source::from("https://magnetdl.com".to_string()), Source::MagnetDL);
    assert_eq!(Source::from("https://limetorrents.info".to_string()), Source::LimeTorrent);
    assert_eq!(Source::from("https://torrentfunk.com".to_string()), Source::TorrentFunk);
    assert_eq!(Source::from("https://torrentproject.se".to_string()), Source::TorrentProject);
    assert_eq!(Source::from("http://prowlarr.local".to_string()), Source::Prowlarr);
    assert_eq!(Source::from("https://example.org".to_string()), Source::Unknown);
    assert_eq!(Source::from(String::new()), Source::Unknown);
    assert_eq!(Source::from("https://YTS.mx".to_string()), Source::Unknown);
    // Where several sites are named the first in the list of sites wins.
    assert_eq!(Source::from("https://rarbg.to/?via=yts".to_string()), Source::Yts);
    assert_eq!(Source::from("prowlarr 1337x".to_string()), Source::_1337x);
}

#[test]
fn substring_search() {
    assert!(str_contains("", ""));
    assert!(str_contains("abc", ""));
    assert!(!str_contains("", "a"));
    assert!(str_contains("abc", "abc"));
    assert!(str_contains("abc", "a"));
    assert!(str_contains("abc", "c"));
    assert!(str_contains("abc", "bc"));
    assert!(!str_contains("abc", "abcd"));
    assert!(!str_contains("abc", "ac"));
    assert!(str_contains("aab", "ab"));
    assert!(str_contains("héllo", "é"));
    assert!(bytes_contain_exec(b"\x00\x01\x02", b"\x01\x02"));
    for (text, pattern) in [("abracadabra", "cad"), ("abracadabra", "dab"), ("abracadabra", "abx")] {
        assert_eq!(str_contains(text, pattern), text.contains(pattern));
    }
}

#[test]
fn signed_numbers() {
    assert_eq!(parse_signed(b"0"), Some(0));
    assert_eq!(parse_signed(b"12"), Some(12));
    assert_eq!(parse_signed(b"+12"), Some(12));
    assert_eq!(parse_signed(b"-12"), Some(-12));
    assert_eq!(parse_signed(b"-0"), Some(0));
    assert_eq!(parse_signed(b"007"), Some(7));
    assert_eq!(parse_signed(b"9223372036854775807"), Some(i64::MAX));
    assert_eq!(parse_signed(b"9223372036854775808"), None);
    assert_eq!(parse_signed(b"-9223372036854775808"), Some(i64::MIN));
    assert_eq!(parse_signed(b"-9223372036854775809"), None);
    assert_eq!(parse_signed(b"99999999999999999999999"), None);
    for text in ["", "+", "-", "--1", "+-1", "1.5", " 1", "1 ", "abc", "1e3"] {
        assert_eq!(parse_signed(text.as_bytes()), None);
        assert_eq!(parse_signed(text.as_bytes()), text.parse::<i64>().ok());
    }
    for n in [0i64, 1, -1, 42, -42, i64::MAX, i64::MIN, i64::MIN + 1] {
        assert_eq!(i64_to_decimal(n), n.to_string());
        assert_eq!(parse_signed(n.to_string().as_bytes()), Some(n));
    }
}

#[test]
fn counts_sent_as_text() {
    assert_eq!(read_count(&Some("15".to_string())), 15);
    assert_eq!(read_count(&Some("-2".to_string())), -2);
    assert_eq!(read_count(&Some("1,234".to_string())), 0);
    assert_eq!(read_count(&Some(String::new())), 0);
    assert_eq!(read_count(&None), 0);
}

#[test]
fn global_result_in_the_common_shape() {
    let result = try_from(api_torrent("Show S01", "https://1337x.to/t/1", Some("magnet:?xt=1"))).unwrap();
    assert_eq!(result.name, "Show S01");
    assert_eq!(result.torrent, None);
    assert_eq!(result.magnet, "magnet:?xt=1");
    assert_eq!(result.seeders, 12);
    assert_eq!(result.leechers, -3);
    assert_eq!(result.downloads, 0);
    assert_eq!(result.size, "1.4 GB");
    assert_eq!(result.source, Source::_1337x);
    let mut sent = api_torrent("x", "nowhere", Some("m"));
    sent.size = None;
    sent.seeders = None;
    sent.torrent = Some("file.torrent".to_string());
    let result = try_from(sent).unwrap();
    assert_eq!(result.size, "Unknown");
    assert_eq!(result.seeders, 0);
    assert_eq!(result.torrent, Some("file.torrent".to_string()));
    assert_eq!(result.source, Source::Unknown);
}

#[test]
fn global_result_without_magnet_is_refused() {
    assert!(matches!(
        try_from(api_torrent("x", "https://yts.mx", None)),
        Err(IndexerError::MissingMagnet)
    ));
}

#[test]
fn global_results_without_magnet_are_left_out() {
    let mut found = vec![torrent("kept", 1)];
    collect_results(
        &mut found,
        vec![
            api_torrent("a", "https://yts.mx", Some("ma")),
            api_torrent("b", "https://yts.mx", None),
            api_torrent("c", "https://eztv.re", Some("mc")),
        ],
    );
    let names: Vec<&str> = found.iter().map(|t| t.name.as_str()).collect();
    assert_eq!(names, vec!["kept", "a", "c"]);
    assert_eq!(found[2].source, Source::Eztv);
    collect_results(&mut found, Vec::new());
    assert_eq!(found.len(), 3);
}

#[test]
fn names_are_searched_in_lower_case_without_punctuation() {
    assert_eq!(preprocess_name("The Office (US)"), Some("the office us".to_string()));
    assert_eq!(preprocess_name("Spider-Man: No Way Home!"), Some("spiderman no way home".to_string()));
    assert_eq!(preprocess_name("ÉTÉ_2024"), Some("été_2024".to_string()));
    assert_eq!(preprocess_name(""), Some(String::new()));
    assert_eq!(
        search_url("Mr. Robot"),
        Some("https://itorrentsearch.vercel.app/api/all/mr robot/1".to_string())
    );
}

#[test]
fn prowlarr_results_in_the_common_shape() {
    let sent = vec![
        ProwlarrTorrent {
            guid: "magnet:?xt=urn:btih:1".to_string(),
            size: 1_500_000_000,
            indexer: "some".to_string(),
            title: "Show S01E01".to_string(),
            magnet_url: "http://prowlarr/dl/1".to_string(),
            seeders: 10,
            leechers: 2,
        },
        ProwlarrTorrent {
            guid: "g2".to_string(),
            size: -1,
            indexer: String::new(),
            title: "t2".to_string(),
            magnet_url: String::new(),
            seeders: 0,
            leechers: 0,
        },
    ];
    let found = convert_results(sent);
    assert_eq!(found.len(), 2);
    assert_eq!(found[0].name, "Show S01E01");
    assert_eq!(found[0].magnet, "magnet:?xt=urn:btih:1");
    assert_eq!(found[0].torrent, None);
    assert_eq!(found[0].seeders, 10);
    assert_eq!(found[0].leechers, 2);
    assert_eq!(found[0].downloads, 0);
    assert_eq!(found[0].size, "1500000000");
    assert_eq!(found[0].source, Source::Prowlarr);
    assert_eq!(found[1].size, "-1");
    assert_eq!(
        hypertube::infrastructure::indexers::prowlarr::search_url("http://p:9696/api/v1"),
        "http://p:9696/api/v1/search"
    );
    assert_eq!(authorization_header("key"), "Bearer key");
}

#[test]
fn titles_under_which_torrents_are_searched() {
    let title = |country: &str, title: &str, kind: &str| AlternativeTitle {
        iso_3166_1: country.to_string(),
        title: title.to_string(),
        title_type: kind.to_string(),
    };
    let titles = Some(vec![
        title("FR", "L'Attaque des Titans", ""),
        title("US", "Attack on Titan", ""),
        title("JP", "Shingeki no Kyojin", "romaji"),
        title("JP", "進撃の巨人", ""),
        title("GB", "AoT", "short"),
        title("JP", "Singeki", "romanization"),
        title("us", "lower", ""),
    ]);
    assert_eq!(
        show_titles("Attack on Titan", &titles),
        vec!["Attack on Titan", "Attack on Titan", "Shingeki no Kyojin", "AoT", "Singeki"]
    );
    assert_eq!(show_titles("Alone", &None), vec!["Alone"]);
    assert_eq!(show_titles("Alone", &Some(Vec::new())), vec!["Alone"]);
}

#[test]
fn search_words_are_title_and_parameters() {
    assert_eq!(search_query("Show", &Some("S01 1080p".to_string())), "Show S01 1080p");
    assert_eq!(search_query("Show", &None), "Show ");
    assert_eq!(search_query("", &Some(String::new())), " ");
}

#[test]
fn merged_results_keep_the_last_of_each_name() {
    let merged = merge_torrents(vec![
        torrent("a", 1),
        torrent("b", 2),
        torrent("a", 3),
        torrent("c", 4),
        torrent("b", 5),
        torrent("a", 6),
    ]);
    let mut kept: Vec<(String, i64)> = merged.iter().map(|t| (t.name.clone(), t.seeders)).collect();
    kept.sort();
    assert_eq!(kept, vec![("a".to_string(), 6), ("b".to_string(), 5), ("c".to_string(), 4)]);
    assert!(merge_torrents(Vec::new()).is_empty());
}

#[test]
fn tvdb_settings() {
    assert_eq!(TvdbConfig::default().language, "eng");
    assert_eq!(TvdbConfig::new("fra".to_string()).language, "fra");
    assert_eq!(search_language(None), "eng");
    assert_eq!(search_language(Some("deu".to_string())), "deu");
}

#[test]
fn tvdb_aliases_in_english_and_french() {
    let alias = |language: Option<&str>, name: Option<&str>| Alias {
        language: language.map(|l| l.to_string()),
        name: name.map(|n| n.to_string()),
    };
    assert_eq!(filter_aliases(None), None);
    assert_eq!(filter_aliases(Some(Vec::new())), Some(Vec::new()));
    assert_eq!(
        filter_aliases(Some(vec![
            alias(Some("eng"), Some("The Show")),
            alias(Some("deu"), Some("Die Schau")),
            alias(Some("fra"), Some("Le Spectacle")),
            alias(None, Some("Nameless language")),
            alias(Some("eng"), None),
            alias(Some("ENG"), Some("Upper")),
            alias(Some("eng"), Some("Again")),
        ])),
        Some(vec!["The Show".to_string(), "Le Spectacle".to_string(), "Again".to_string()])
    );
}

#[test]
fn tvdb_show_types() {
    assert_eq!(show_type_of(&Some("series".to_string())), ShowType::Tv);
    assert_eq!(show_type_of(&Some("movie".to_string())), ShowType::Movie);
    assert_eq!(show_type_of(&Some("person".to_string())), ShowType::Undefined);
    assert_eq!(show_type_of(&Some("Series".to_string())), ShowType::Undefined);
    assert_eq!(show_type_of(&None), ShowType::Undefined);
    assert_eq!(
        hypertube::infrastructure::metadata::models::ShowType::default(),
        hypertube::infrastructure::metadata::models::ShowType::Movie
    );
}

#[test]
fn movie_database_requests() {
    assert_eq!(language_or_default(None), "en-US");
    assert_eq!(language_or_default(Some("fr-FR")), "fr-FR");
    assert_eq!(movie_path(603), "movie/603");
    assert_eq!(movie_videos_path(603), "movie/603/videos");
    assert_eq!(tv_path(1396), "tv/1396");
    assert_eq!(tv_videos_path(1396), "tv/1396/videos");
    assert_eq!(tv_season_path(1396, 2), "tv/1396/season/2");
    assert_eq!(tv_season_path(0, u32::MAX), "tv/0/season/4294967295");
    assert_eq!(request_url("trending/tv/week"), "https://api.themoviedb.org/3/trending/tv/week");
}

#[test]
fn new_users() {
    let user = UserInsert::from_registration(RegisterUser {
        username: "ada".to_string(),
        email: "ada@example.org".to_string(),
        password: "correct horse".to_string(),
    });
    assert_eq!(user.username, "ada");
    assert_eq!(user.email, "ada@example.org");
    assert_eq!(user.password, Some("correct horse".to_string()));
    assert_eq!(user.permissions, 1);
    let user = UserInsert::from_ft_user(FtUser {
        id: 42,
        email: "ft@example.org".to_string(),
        login: "ftlogin".to_string(),
    });
    assert_eq!(user.username, "ftlogin");
    assert_eq!(user.email, "ft@example.org");
    assert_eq!(user.password, None);
    assert_eq!(user.permissions, 1);
}

#[test]
fn user_changes_never_touch_permissions() {
    let update = UserUpdate::from_patch(PatchUser {
        username: Some("new".to_string()),
        email: None,
        password: Some("secret pass".to_string()),
    });
    assert_eq!(update.username, Some("new".to_string()));
    assert_eq!(update.email, None);
    assert_eq!(update.password, Some("secret pass".to_string()));
    assert_eq!(update.permissions, None);
}

#[test]
fn sign_in_steps() {
    assert!(matches!(sign_in_with(Ok::<u8, UserError>(7)), SignIn::Existing(7)));
    assert!(matches!(sign_in_with(Err::<u8, UserError>(UserError::UserNotFound)), SignIn::Create));
    assert!(matches!(
        sign_in_with(Err::<u8, UserError>(UserError::DatabaseError)),
        SignIn::Fail(UserError::DatabaseError)
    ));
    assert!(matches!(
        sign_in_with(Err::<u8, UserError>(UserError::UserAlreadyExists)),
        SignIn::Fail(UserError::UserAlreadyExists)
    ));
}

#[test]
fn user_rows() {
    let row = |id: &str| DbUser {
        id: id.to_string(),
        username: "ada".to_string(),
        email: "ada@example.org".to_string(),
        password: None,
        permissions: 1,
        created_at: 10u64,
        updated_at: 20u64,
    };
    let user = User::try_from(row("550e8400-e29b-41d4-a716-446655440000")).unwrap();
    assert_eq!(
        user.id,
        [0x55, 0x0e, 0x84, 0x00, 0xe2, 0x9b, 0x41, 0xd4, 0xa7, 0x16, 0x44, 0x66, 0x55, 0x44, 0x00, 0x00]
    );
    assert_eq!(user.username, "ada");
    assert_eq!(user.email, "ada@example.org");
    assert_eq!(user.password, None);
    assert_eq!(user.permissions, 1);
    assert_eq!(user.created_at, 10);
    assert_eq!(user.updated_at, 20);
    let simple = User::try_from(row("550e8400e29b41d4a716446655440000")).unwrap();
    assert_eq!(simple.id, user.id);
    assert_eq!(User::try_from(row("not a uuid")).unwrap_err(), UserError::DatabaseError);
    assert_eq!(User::try_from(row("")).unwrap_err(), UserError::DatabaseError);
}

#[test]
fn magnet_forms() {
    let form = |magnet: &str| AddTorrentWithMagnet { magnet: magnet.to_string() };
    assert!(form("magnet:?xt=urn:btih:cfe1119f124881ca70f7306f32e292194c88c195").is_valid());
    assert!(form("magnet:?xt=urn:btih:").is_valid());
    assert!(form("see magnet:?xt=urn:btih:abc&dn=name").is_valid());
    assert!(!form("").is_valid());
    assert!(!form("magnet:?xt=urn:sha1:abc").is_valid());
    assert!(!form("MAGNET:?XT=URN:BTIH:abc").is_valid());
    assert!(!form("http://example.org/file.torrent").is_valid());
}

#[test]
fn service_settings() {
    let config = Config {
        api_version: "0.1.0".to_string(),
        host: DEFAULT_HOST.to_string(),
        port: DEFAULT_PORT,
        origins: vec!["http://localhost:5173".to_string()],
        telemetry_collector_endpoint: None,
        download_dir: "./downloads".to_string(),
        tvdb_api_key: String::new(),
        prowlarr_api_key: String::new(),
        prowlarr_api_url: String::new(),
    };
    assert_eq!(config.bind_address(), "0.0.0.0:3000");
    let cookie = |same_site: &str| CookieConfig {
        session_secret: "s".to_string(),
        session_ttl: 3600,
        same_site: same_site.to_string(),
        secure: true,
        http_only: true,
    };
    assert_eq!(cookie("strict").same_site_policy(), SameSitePolicy::Strict);
    assert_eq!(cookie("lax").same_site_policy(), SameSitePolicy::Lax);
    assert_eq!(cookie("none").same_site_policy(), SameSitePolicy::Unrestricted);
    assert_eq!(cookie("Lax").same_site_policy(), SameSitePolicy::Strict);
    assert_eq!(cookie("").same_site_policy(), SameSitePolicy::Strict);
}

#[test]
fn logging_levels() {
    assert_eq!(log_level(&None), LogLevel::Info);
    assert_eq!(log_level(&Some("debug".to_string())), LogLevel::Debug);
    assert_eq!(log_level(&Some("info".to_string())), LogLevel::Info);
    assert_eq!(log_level(&Some("warn".to_string())), LogLevel::Warn);
    assert_eq!(log_level(&Some("error".to_string())), LogLevel::Error);
    assert_eq!(log_level(&Some("trace".to_string())), LogLevel::Info);
    assert_eq!(log_level(&Some("DEBUG".to_string())), LogLevel::Info);
}

#[test]
fn database_address_loses_its_quotes() {
    assert_eq!(database_address("\"sqlite://db.sqlite\""), "sqlite://db.sqlite");
    assert_eq!(database_address("sqlite://db.sqlite"), "sqlite://db.sqlite");
    assert_eq!(database_address("a\"b\"c"), "abc");
}

#[test]
fn health_answer() {
    assert_eq!(health().status, "ok");
}

#[test]
fn limiter_bounds_the_runs() {
    let mut limiter: Limiter<u32> = Limiter::new(2);
    assert_eq!(limiter.limit(), 2);
    assert_eq!(limiter.enter(1), Some(1));
    assert_eq!(limiter.enter(2), Some(2));
    assert_eq!(limiter.running(), 2);
    // Every slot is taken: further jobs wait in line.
    assert_eq!(limiter.enter(3), None);
    assert_eq!(limiter.enter(4), None);
    assert_eq!(limiter.enter(5), None);
    assert_eq!(limiter.running(), 2);
    assert_eq!(limiter.waiting(), 3);
    // Each end of a run starts the job that has waited longest.
    assert_eq!(limiter.release(), Some(3));
    assert_eq!(limiter.running(), 2);
    assert_eq!(limiter.release(), Some(4));
    assert_eq!(limiter.release(), Some(5));
    assert_eq!(limiter.waiting(), 0);
    assert_eq!(limiter.running(), 2);
    assert_eq!(limiter.release(), None);
    assert_eq!(limiter.running(), 1);
    assert_eq!(limiter.enter(6), Some(6));
    assert_eq!(limiter.release(), None);
    assert_eq!(limiter.release(), None);
    assert_eq!(limiter.running(), 0);
    // An end that matches no run changes nothing.
    assert_eq!(limiter.release(), None);
    assert_eq!(limiter.running(), 0);
}

#[test]
fn limiter_of_one_runs_jobs_one_by_one() {
    let mut limiter: Limiter<&str> = Limiter::new(1);
    assert_eq!(limiter.enter("a"), Some("a"));
    assert_eq!(limiter.enter("b"), None);
    assert_eq!(limiter.release(), Some("b"));
    assert_eq!(limiter.running(), 1);
    assert_eq!(limiter.release(), None);
    assert_eq!(limiter.running(), 0);
}
