//! Torrent search: the results of the indexers, brought to one shape.

pub mod error;
pub mod global;
pub mod indexer;
pub mod prowlarr;
