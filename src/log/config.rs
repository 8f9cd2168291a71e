use vstd::prelude::*;

use super::level::LogLevel;

verus! {

/// How the logger is set up: the least severe level that is written, and
/// whether records are written as JSON.
#[derive(Clone, Copy, Debug)]
pub struct Config {
    /// The least severe level that is written.
    pub level: LogLevel,
    /// Whether records are written as JSON rather than as plain text.
    pub json: bool,
}

} // verus!
