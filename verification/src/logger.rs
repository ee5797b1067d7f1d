//! Console logging levels and the emission decision; the console write
//! itself is a firmware service.

use vstd::prelude::*;

verus! {

/// Log severities, most severe first.
#[derive(Debug, Copy, Clone, PartialEq, Eq, Structural)]
pub enum LogLevel {
    Error,
    Warn,
    Info,
    Debug,
    Trace,
}

/// The verbosity rank of a severity: more verbose levels rank higher.
pub open spec fn spec_level_rank(level: LogLevel) -> int {
    match level {
        LogLevel::Error => 0,
        LogLevel::Warn => 1,
        LogLevel::Info => 2,
        LogLevel::Debug => 3,
        LogLevel::Trace => 4,
    }
}

/// The verbosity rank of a severity.
pub fn level_rank(level: LogLevel) -> (r: u8)
    ensures
        r as int == spec_level_rank(level),
{
    match level {
        LogLevel::Error => 0,
        LogLevel::Warn => 1,
        LogLevel::Info => 2,
        LogLevel::Debug => 3,
        LogLevel::Trace => 4,
    }
}

/// A console logger: the console's address, if one is attached, and the
/// configured verbosity threshold.
#[derive(Debug, Copy, Clone)]
pub struct Logger {
    pub console: Option<usize>,
    pub level: LogLevel,
}

impl Logger {
    /// A logger with no console attached, at the default threshold.
    pub fn new() -> (l: Logger)
        ensures
            l.console is None,
            l.level is Info,
    {
        Logger { console: None, level: LogLevel::Info }
    }

    /// Whether a message of the given severity is emitted: only levels at
    /// or below the configured threshold pass, and only with a console.
    pub fn log(&self, level: LogLevel) -> (emit: bool)
        ensures
            emit == (self.console is Some && spec_level_rank(level) <= spec_level_rank(
                self.level,
            )),
    {
        match self.console {
            Some(_) => level_rank(level) <= level_rank(self.level),
            None => false,
        }
    }
}

} // verus!
