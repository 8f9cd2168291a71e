//! Metrics: the options a metric is registered with, how a list of them
//! folds into one set of options, and registration with prometheus's
//! default registry.
pub mod error;
pub mod opt;
pub mod register;

pub use self::error::MetricError;
pub use self::opt::{CommonOpts, HistogramOpts, Opt};
