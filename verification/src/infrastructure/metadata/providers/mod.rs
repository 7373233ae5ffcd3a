//! The metadata providers.

pub mod tvdb;
