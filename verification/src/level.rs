//! Severity levels and the level filter.

use vstd::prelude::*;

verus! {

/// A log severity level, ordered from least severe (`Trace`) to most
/// severe (`Error`).
#[derive(Clone, Copy, Debug, PartialEq, Eq, Structural)]
pub enum LogLevel {
    /// Fine-grained tracing output.
    Trace,
    /// Diagnostic output for developers.
    Debug,
    /// General informational output.
    Info,
    /// A warning: something unexpected, but recoverable.
    Warn,
    /// An error: something went wrong.
    Error,
}

impl LogLevel {
    /// The numeric severity rank of a level: `Trace` is 0, `Error` is 4.
    pub open spec fn severity(self) -> int {
        match self {
            LogLevel::Trace => 0,
            LogLevel::Debug => 1,
            LogLevel::Info => 2,
            LogLevel::Warn => 3,
            LogLevel::Error => 4,
        }
    }

    /// The canonical upper-case name of a level, as it appears in a
    /// formatted log line.
    pub open spec fn spec_name(self) -> Seq<char> {
        match self {
            LogLevel::Trace => "TRACE"@,
            LogLevel::Debug => "DEBUG"@,
            LogLevel::Info => "INFO"@,
            LogLevel::Warn => "WARN"@,
            LogLevel::Error => "ERROR"@,
        }
    }

    /// Returns the numeric severity rank of this level.
    pub fn severity_rank(self) -> (r: u8)
        ensures
            r as int == self.severity(),
    {
        match self {
            LogLevel::Trace => 0,
            LogLevel::Debug => 1,
            LogLevel::Info => 2,
            LogLevel::Warn => 3,
            LogLevel::Error => 4,
        }
    }

    /// Returns the canonical upper-case name of this level.
    pub fn name(self) -> (r: &'static str)
        ensures
            r@ == self.spec_name(),
    {
        match self {
            LogLevel::Trace => "TRACE",
            LogLevel::Debug => "DEBUG",
            LogLevel::Info => "INFO",
            LogLevel::Warn => "WARN",
            LogLevel::Error => "ERROR",
        }
    }
}

/// Whether an event at level `event` passes a filter whose floor is
/// `floor`: exactly the events at least as severe as the floor pass.
pub open spec fn spec_accepts(floor: LogLevel, event: LogLevel) -> bool {
    event.severity() >= floor.severity()
}

/// Returns whether an event at level `event` passes a filter whose
/// floor is `floor`. An event exactly at the floor passes; an event
/// strictly less severe than the floor is suppressed.
pub fn accepts(floor: LogLevel, event: LogLevel) -> (r: bool)
    ensures
        r == spec_accepts(floor, event),
{
    event.severity_rank() >= floor.severity_rank()
}

} // verus!
