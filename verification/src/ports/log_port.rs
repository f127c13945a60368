//! The logging sink, as the components see it.

use vstd::prelude::*;

verus! {

/// Severity of a message.
#[derive(Debug, Clone, Copy, PartialEq, Eq, Structural)]
pub enum LogLevel {
    /// Something failed.
    Error,
    /// Something is unusual.
    Warn,
    /// Progress.
    Info,
    /// Detail for debugging.
    Debug,
    /// Every step.
    Trace,
}

/// A message for the logging sink.
#[derive(Debug, Clone)]
pub struct LogEntry {
    /// Severity.
    pub level: LogLevel,
    /// Text.
    pub message: String,
}

/// The mathematical model of [`LogEntry`].
pub struct LogEntryView {
    pub level: LogLevel,
    pub message: Seq<char>,
}

impl View for LogEntry {
    type V = LogEntryView;

    open spec fn view(&self) -> LogEntryView {
        LogEntryView { level: self.level, message: self.message@ }
    }
}

/// A message of the given severity.
pub open spec fn entry(level: LogLevel, message: Seq<char>) -> LogEntryView {
    LogEntryView { level, message }
}

/// A logging sink.  One sink is made per process and handed to every
/// component that logs.
pub trait LoggerPort {
    /// Logs progress.
    fn log_info(&self, message: &str);

    /// Logs something unusual.
    fn log_warn(&self, message: &str);

    /// Logs a failure.
    fn log_error(&self, message: &str);

    /// Logs detail for debugging.
    fn log_debug(&self, message: &str);

    /// Logs a step.
    fn log_trace(&self, message: &str);
}

/// The least severity that is logged for a number of `--debug` flags: info
/// for none, debug for one, trace for more.
pub open spec fn level_for(debug: u8) -> LogLevel {
    if debug == 0 {
        LogLevel::Info
    } else if debug == 1 {
        LogLevel::Debug
    } else {
        LogLevel::Trace
    }
}

/// The least severity that is logged for a number of `--debug` flags.
pub fn log_level_for(debug: u8) -> (level: LogLevel)
    ensures
        level == level_for(debug),
{
    if debug == 0 {
        LogLevel::Info
    } else if debug == 1 {
        LogLevel::Debug
    } else {
        LogLevel::Trace
    }
}

} // verus!
