//! Streaming of partially downloaded torrent files over HTTP, and on-demand
//! segmented renditions produced by an external transcoder.

pub mod auth;
pub mod config;
pub mod database;
pub mod error;
pub mod infrastructure;
pub mod pattern;
pub mod server;
pub mod shows;
pub mod stream;
pub mod table;
pub mod text;
pub mod torrents;
pub mod transcode;
pub mod users;
