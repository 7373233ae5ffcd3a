//! On-demand segmented renditions: the extraction window of a segment, the
//! commands handed to the external transcoder, the per-session manifest
//! lifecycle and the single-flight segment cache.

pub mod command;
pub mod error;
pub mod limiter;
pub mod route;
pub mod segment_cache;
pub mod session;
pub mod window;
