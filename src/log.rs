//! Logging: severity levels, their configuration, and the filter decision.
pub mod config;
pub mod error;
pub mod level;

pub use self::config::Config;
pub use self::error::LogError;
pub use self::level::LogLevel;
