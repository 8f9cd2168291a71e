//! Support library for the Rift daemon: logging configuration and level
//! filtering, and a metrics registration layer over prometheus.
pub mod log;
pub mod metrics;
pub mod riftd;
