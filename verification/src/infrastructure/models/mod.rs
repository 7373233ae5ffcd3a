//! What is stored of users.

pub mod user;
