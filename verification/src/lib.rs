//! Verified core of a client for the Goosefs distributed cache.

pub mod text;
pub mod number;
pub mod time;
pub mod auth;
pub mod error;
pub mod proto;
pub mod config;
pub mod block;
pub mod cache;
pub mod fs;
pub mod io;
pub mod metadata_cache;
pub mod metadata_cache_disabled;
pub mod metrics;
pub mod python;
