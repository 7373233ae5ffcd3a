//! Descriptions of shows and movies, as the metadata providers send them.

pub mod error;
pub mod meta;
pub mod models;
pub mod provider;
pub mod tmdb;
pub mod providers;
