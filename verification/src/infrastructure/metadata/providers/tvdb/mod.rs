//! TheTVDB.

pub mod config;
pub mod tvdb;
