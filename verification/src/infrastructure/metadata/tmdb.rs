//! What is asked of the movie database: in which language, and under which
//! paths.

use vstd::prelude::*;
use vstd::string::StringExecFns;

use crate::text::decimal_chars;
use crate::text::u64_to_decimal;

verus! {

/// Where the movie database answers.
pub const TMDB_API_URL: &'static str = "https://api.themoviedb.org/3";

/// The language in which the movie database is asked when none is chosen.
pub const DEFAULT_LANGUAGE: &'static str = "en-US";

/// What is asked to come along with the description of a show.
pub const APPENDED: &'static str = "alternative_titles,videos,credits";

/// How many descriptions are completed at a time.
pub const CONCURRENT_REQUESTS: usize = 10;

/// The language of a request: the one chosen, or the default.
pub fn language_or_default<'a>(language: Option<&'a str>) -> (chosen: &'a str)
    ensures
        chosen@ == (match language {
            Some(l) => l@,
            None => "en-US"@,
        }),
{
    match language {
        Some(language) => language,
        None => DEFAULT_LANGUAGE,
    }
}

/// The address of a path of the movie database.
pub fn request_url(path: &str) -> (url: String)
    ensures
        url@ == "https://api.themoviedb.org/3"@ + "/"@ + path@,
{
    let mut url = TMDB_API_URL.to_owned();
    url.append("/");
    url.append(path);
    url
}

/// The path of a movie.
pub fn movie_path(id: u32) -> (path: String)
    ensures
        path@ == "movie/"@ + decimal_chars(id as nat),
{
    let mut path = "movie/".to_owned();
    path.append(u64_to_decimal(id as u64).as_str());
    path
}

/// The path of the videos of a movie.
pub fn movie_videos_path(id: u32) -> (path: String)
    ensures
        path@ == "movie/"@ + decimal_chars(id as nat) + "/videos"@,
{
    let mut path = movie_path(id);
    path.append("/videos");
    path
}

/// The path of a TV show.
pub fn tv_path(id: u32) -> (path: String)
    ensures
        path@ == "tv/"@ + decimal_chars(id as nat),
{
    let mut path = "tv/".to_owned();
    path.append(u64_to_decimal(id as u64).as_str());
    path
}

/// The path of the videos of a TV show.
pub fn tv_videos_path(id: u32) -> (path: String)
    ensures
        path@ == "tv/"@ + decimal_chars(id as nat) + "/videos"@,
{
    let mut path = tv_path(id);
    path.append("/videos");
    path
}

/// The path of one season of a TV show.
pub fn tv_season_path(id: u32, season_number: u32) -> (path: String)
    ensures
        path@ == "tv/"@ + decimal_chars(id as nat) + "/season/"@ + decimal_chars(
            season_number as nat,
        ),
{
    let mut path = tv_path(id);
    path.append("/season/");
    path.append(u64_to_decimal(season_number as u64).as_str());
    path
}

} // verus!
