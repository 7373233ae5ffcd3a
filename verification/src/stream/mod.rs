//! Delivery of one file of a torrent over HTTP: the byte stream behind a
//! response, the translation of a `Range` header, and the playlist of a
//! torrent's playable files.

pub mod byte_stream;
pub mod error;
pub mod playlist;
pub mod range;
pub mod routes;
