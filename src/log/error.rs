use vstd::prelude::*;

verus! {

/// Errors raised while configuring logging.
#[derive(Debug)]
pub enum LogError {
    /// The given text names none of the known levels.
    InvalidLevel {
        /// The text that was given as a level.
        level: String,
    },
}

impl LogError {
    /// What the error says, for people.
    pub fn message(&self) -> (r: String)
        ensures
            match self {
                LogError::InvalidLevel { level } => r@ == "invalid level specified: "@ + level@,
            },
    {
        match self {
            LogError::InvalidLevel { level } => {
                let prefix = String::from_str("invalid level specified: ");
                prefix.concat(level.as_str())
            },
        }
    }
}

impl LogError {
    /// The error for a level text that names no known level.
    pub fn invalid_level(i: &str) -> (r: LogError)
        ensures
            match r {
                LogError::InvalidLevel { level } => level@ == i@,
            },
    {
        let level = i.to_owned();
        LogError::InvalidLevel { level }
    }
}

impl From<&str> for LogError {
    fn from(i: &str) -> (r: Self) {
        LogError::invalid_level(i)
    }
}

impl vstd::std_specs::convert::FromSpecImpl<&str> for LogError {
    open spec fn obeys_from_spec() -> bool {
        false
    }

    open spec fn from_spec(v: &str) -> Self {
        arbitrary()
    }
}

} // verus!
