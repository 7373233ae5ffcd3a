//! What the application leans on: the torrent engine's identifiers and the
//! permission bits of its users.

pub mod authorization;
pub mod indexers;
pub mod metadata;
pub mod models;
pub mod oauth;
pub mod torrent;
