//! The application's log: how a line of it reads. Writing the line is the
//! caller's business.

use vstd::prelude::*;
use crate::text::concat3;

verus! {

/// How serious a log entry is.
#[derive(Debug, Clone, Copy, PartialEq, Eq, Structural)]
pub enum LogLevel {
    Info,
    Warning,
    Error,
    Debug,
}

/// Formats log entries.
pub struct Logger;

/// The tag that a level is written as.
pub open spec fn level_tag(level: LogLevel) -> Seq<char> {
    match level {
        LogLevel::Info => "INFO"@,
        LogLevel::Warning => "WARN"@,
        LogLevel::Error => "ERROR"@,
        LogLevel::Debug => "DEBUG"@,
    }
}

/// A log line: the time and the level's tag in brackets, then the
/// message.
pub open spec fn log_line(level: LogLevel, timestamp: Seq<char>, message: Seq<char>) -> Seq<char> {
    "["@ + timestamp + "] ["@ + level_tag(level) + "] "@ + message
}

impl Logger {
    /// The tag that a level is written as.
    pub fn level_name(level: LogLevel) -> (r: &'static str)
        ensures
            r@ == level_tag(level),
    {
        match level {
            LogLevel::Info => "INFO",
            LogLevel::Warning => "WARN",
            LogLevel::Error => "ERROR",
            LogLevel::Debug => "DEBUG",
        }
    }

    /// Formats one log line for an entry made at `timestamp`.
    pub fn format_line(level: LogLevel, timestamp: &str, message: &str) -> (r: String)
        ensures
            r@ == log_line(level, timestamp@, message@),
    {
        let head = concat3("[", timestamp, "] [");
        let tagged = concat3(head.as_str(), Self::level_name(level), "] ");
        tagged.concat(message)
    }
}

} // verus!
