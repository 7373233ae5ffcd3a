//! User accounts.

pub mod error;
pub mod requests;
