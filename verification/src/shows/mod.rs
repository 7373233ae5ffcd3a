//! Shows and movies, and the search for their torrents.

pub mod routes;
