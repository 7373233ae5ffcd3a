//! Signing in through an outside identity provider.

pub mod error;
