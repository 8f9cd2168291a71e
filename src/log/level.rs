use vstd::prelude::*;

use super::error::LogError;

verus! {

/// How severe a log record is, from `Critical` (most severe) to `Debug`.
#[derive(Clone, Copy, Debug, PartialEq, Eq, Structural)]
pub enum LogLevel {
    Critical,
    Error,
    Warn,
    Info,
    Debug,
}

/// slog's number for one of its levels: 1 for `Critical` up to 6 for `Trace`.
pub open spec fn slog_rank(l: slog::Level) -> nat {
    match l {
        slog::Level::Critical => 1,
        slog::Level::Error => 2,
        slog::Level::Warning => 3,
        slog::Level::Info => 4,
        slog::Level::Debug => 5,
        slog::Level::Trace => 6,
    }
}

/// slog's `Level`, with its six variants.
#[verifier::external_type_specification]
pub struct ExSlogLevel(slog::Level);

/// Relies on `slog::Level::is_at_least`: a level is at least as severe as
/// another when its number is not larger.
pub assume_specification[ slog::Level::is_at_least ](l: &slog::Level, level: slog::Level) -> (r: bool)
    ensures
        r == (slog_rank(*l) <= slog_rank(level)),
;

impl LogLevel {
    /// The text that names this level on the command line.
    pub open spec fn token(self) -> Seq<char> {
        match self {
            LogLevel::Critical => "critical"@,
            LogLevel::Error => "error"@,
            LogLevel::Warn => "warn"@,
            LogLevel::Info => "info"@,
            LogLevel::Debug => "debug"@,
        }
    }

    /// The level that a text names, if any.
    pub open spec fn from_token(t: Seq<char>) -> Option<LogLevel> {
        if t == "critical"@ {
            Some(LogLevel::Critical)
        } else if t == "error"@ {
            Some(LogLevel::Error)
        } else if t == "warn"@ {
            Some(LogLevel::Warn)
        } else if t == "info"@ {
            Some(LogLevel::Info)
        } else if t == "debug"@ {
            Some(LogLevel::Debug)
        } else {
            None
        }
    }

    /// Severity as a number: 1 is the most severe, 5 the least.
    pub open spec fn rank(self) -> nat {
        match self {
            LogLevel::Critical => 1,
            LogLevel::Error => 2,
            LogLevel::Warn => 3,
            LogLevel::Info => 4,
            LogLevel::Debug => 5,
        }
    }

    /// The slog level that this level stands for.
    pub open spec fn slog_spec(self) -> slog::Level {
        match self {
            LogLevel::Critical => slog::Level::Critical,
            LogLevel::Error => slog::Level::Error,
            LogLevel::Warn => slog::Level::Warning,
            LogLevel::Info => slog::Level::Info,
            LogLevel::Debug => slog::Level::Debug,
        }
    }

    /// Reads a level from its name; any other text is an `InvalidLevel` error
    /// that carries the text.
    pub fn parse(s: &str) -> (r: Result<LogLevel, LogError>)
        ensures
            match r {
                Ok(l) => LogLevel::from_token(s@) == Some(l),
                Err(LogError::InvalidLevel { level }) => LogLevel::from_token(s@).is_none() && level@ == s@,
            },
    {
        if same_text(s, "critical") {
            Ok(LogLevel::Critical)
        } else if same_text(s, "error") {
            Ok(LogLevel::Error)
        } else if same_text(s, "warn") {
            Ok(LogLevel::Warn)
        } else if same_text(s, "info") {
            Ok(LogLevel::Info)
        } else if same_text(s, "debug") {
            Ok(LogLevel::Debug)
        } else {
            Err(LogError::invalid_level(s))
        }
    }

    /// The matching slog level.
    pub fn to_slog(&self) -> (r: slog::Level)
        ensures
            r == self.slog_spec(),
            slog_rank(r) == self.rank(),
    {
        match self {
            LogLevel::Critical => slog::Level::Critical,
            LogLevel::Error => slog::Level::Error,
            LogLevel::Warn => slog::Level::Warning,
            LogLevel::Info => slog::Level::Info,
            LogLevel::Debug => slog::Level::Debug,
        }
    }

    /// Whether a record of the given slog level passes a filter set to this
    /// level: it does when it is at least as severe.
    pub fn admits(&self, record: slog::Level) -> (r: bool)
        ensures
            r == (slog_rank(record) <= self.rank()),
    {
        record.is_at_least(self.to_slog())
    }
}

impl std::str::FromStr for LogLevel {
    type Err = LogError;

    fn from_str(s: &str) -> (r: Result<LogLevel, LogError>) {
        LogLevel::parse(s)
    }
}

/// Whether two texts hold the same characters.
fn same_text(a: &str, b: &str) -> (r: bool)
    ensures
        r == (a@ == b@),
{
    let n = a.unicode_len();
    if n != b.unicode_len() {
        return false;
    }
    let mut i: usize = 0;
    while i < n
        invariant
            n == a@.len(),
            n == b@.len(),
            i <= n,
            a@.subrange(0, i as int) == b@.subrange(0, i as int),
        decreases n - i,
    {
        if a.get_char(i) != b.get_char(i) {
            return false;
        }
        assert(a@.subrange(0, i + 1) == a@.subrange(0, i as int).push(a@[i as int]));
        assert(b@.subrange(0, i + 1) == b@.subrange(0, i as int).push(b@[i as int]));
        i = i + 1;
    }
    assert(a@ == a@.subrange(0, n as int));
    assert(b@ == b@.subrange(0, n as int));
    true
}

/// Each level's name reads back as that level, and the levels are strictly
/// ordered by severity: critical, error, warn, info, debug.
pub proof fn level_names_round_trip(l: LogLevel)
    ensures
        LogLevel::from_token(l.token()) == Some(l),
        LogLevel::Critical.rank() < LogLevel::Error.rank(),
        LogLevel::Error.rank() < LogLevel::Warn.rank(),
        LogLevel::Warn.rank() < LogLevel::Info.rank(),
        LogLevel::Info.rank() < LogLevel::Debug.rank(),
{
    reveal_strlit("critical");
    reveal_strlit("error");
    reveal_strlit("warn");
    reveal_strlit("info");
    reveal_strlit("debug");
    assert("error"@[0] != "critical"@[0]);
    assert("warn"@[0] != "critical"@[0] && "warn"@[0] != "error"@[0]);
    assert("info"@[0] != "critical"@[0] && "info"@[0] != "error"@[0] && "info"@[0] != "warn"@[0]);
    assert("debug"@[0] != "critical"@[0] && "debug"@[0] != "error"@[0] && "debug"@[0] != "warn"@[0]
        && "debug"@[0] != "info"@[0]);
}

} // verus!
