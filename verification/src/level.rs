//! Log levels and the fixed level-to-severity mapping.

use vstd::prelude::*;
use vstd::string::StringExecFns;

verus! {

/// A log level. Verbosity decreases from `Trace` to `Error`; `Error` is
/// the most urgent level.
#[derive(Clone, Copy, Debug, PartialEq, Eq, Structural)]
pub enum Level {
    /// The most verbose, least urgent level.
    Trace,
    /// Debugging detail.
    Debug,
    /// Normal operational messages.
    Info,
    /// Unexpected but tolerated conditions.
    Warn,
    /// The least verbose, most urgent level.
    Error,
}

/// The fixed syslog-style severity for a level: error is 3, warn 4,
/// info 5, debug 6, trace 7. Lower numbers are more urgent.
pub open spec fn spec_severity(level: Level) -> u32 {
    match level {
        Level::Error => 3,
        Level::Warn => 4,
        Level::Info => 5,
        Level::Debug => 6,
        Level::Trace => 7,
    }
}

/// The upper-case name of a level, as it appears in policy-violation
/// records.
pub open spec fn spec_level_name(level: Level) -> Seq<char> {
    match level {
        Level::Error => "ERROR"@,
        Level::Warn => "WARN"@,
        Level::Info => "INFO"@,
        Level::Debug => "DEBUG"@,
        Level::Trace => "TRACE"@,
    }
}

/// `a` is at least as urgent as `b`: its severity number is no larger.
pub open spec fn at_least_as_urgent(a: Level, b: Level) -> bool {
    spec_severity(a) <= spec_severity(b)
}

impl Level {
    /// Map this level to its numeric syslog severity. The mapping is
    /// total: every level has exactly one severity, always in `3..=7`.
    pub fn severity(self) -> (s: u32)
        ensures
            s == spec_severity(self),
            3 <= s <= 7,
    {
        match self {
            Level::Error => 3,
            Level::Warn => 4,
            Level::Info => 5,
            Level::Debug => 6,
            Level::Trace => 7,
        }
    }

    /// The upper-case name of this level.
    pub fn name(self) -> (r: String)
        ensures
            r@ == spec_level_name(self),
    {
        match self {
            Level::Error => String::from_str("ERROR"),
            Level::Warn => String::from_str("WARN"),
            Level::Info => String::from_str("INFO"),
            Level::Debug => String::from_str("DEBUG"),
            Level::Trace => String::from_str("TRACE"),
        }
    }

    /// Does this level's severity make it at least as urgent as `other`?
    pub fn is_at_least_as_urgent_as(self, other: Level) -> (r: bool)
        ensures
            r == at_least_as_urgent(self, other),
    {
        self.severity() <= other.severity()
    }
}

} // verus!
