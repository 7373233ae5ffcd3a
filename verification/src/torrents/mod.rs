//! Adding torrents to the engine.

pub mod error;
pub mod requests;
