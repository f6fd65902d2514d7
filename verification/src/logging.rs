//! Logging.

use vstd::prelude::*;

verus! {

/// How severe a log message is.
#[derive(Debug, Clone, Copy, PartialEq, Eq, Structural)]
pub enum LogLevel {
    /// Diagnostic detail.
    Debug,
    /// Ordinary progress.
    Info,
    /// Something suspicious.
    Warning,
    /// Something broken.
    Error,
}

/// A logger with a minimum severity.
pub struct Logger {
    level: LogLevel,
}

impl Logger {
    /// The logger's minimum severity.
    pub closed spec fn spec_level(&self) -> LogLevel {
        self.level
    }

    /// A logger with the given minimum severity.
    pub fn new(level: LogLevel) -> (r: Self)
        ensures
            r.spec_level() == level,
    {
        Logger { level }
    }

    /// Record a message at a severity.
    pub fn log(&self, level: LogLevel, message: &str) {
    }

    /// Record a message at the Debug severity.
    pub fn debug(&self, message: &str) {
        self.log(LogLevel::Debug, message);
    }

    /// Record a message at the Info severity.
    pub fn info(&self, message: &str) {
        self.log(LogLevel::Info, message);
    }

    /// Record a message at the Warning severity.
    pub fn warn(&self, message: &str) {
        self.log(LogLevel::Warning, message);
    }

    /// Record a message at the Error severity.
    pub fn error(&self, message: &str) {
        self.log(LogLevel::Error, message);
    }
}

} // verus!
