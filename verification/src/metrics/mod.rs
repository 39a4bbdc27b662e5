//! Client metrics.

pub mod cache_report;
pub mod name;
pub mod registry;

pub use registry::{counter, gauge, Counter, Gauge, Registry};
