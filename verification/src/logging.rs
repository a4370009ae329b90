//! The logging record store. The engine side of logging is a sink of
//! structured entries; where they are written — a file, a terminal —
//! is the host program's concern.

use vstd::prelude::*;
use vstd::string::*;

verus! {

/// Severity of one log entry.
#[derive(Debug, Clone, Copy, PartialEq, Eq, Structural)]
pub enum LogLevel {
    /// Ordinary progress information.
    Info,
    /// Diagnostic detail.
    Debug,
    /// A condition worth attention that did not stop the operation.
    Warn,
    /// A failure.
    Error,
}

/// One recorded log message.
#[derive(Debug, Clone, PartialEq, Eq)]
pub struct LogEntry {
    /// The entry's severity.
    pub level: LogLevel,
    /// The message text.
    pub message: String,
}

/// A sink that records log messages in order. The host drains
/// `entries` and writes them wherever its logging goes.
#[derive(Debug)]
pub struct LoggingManager {
    /// The recorded entries, oldest first.
    pub entries: Vec<LogEntry>,
}

impl LoggingManager {
    /// A sink with no entries yet.
    pub fn new() -> (m: LoggingManager)
        ensures
            m.entries@.len() == 0,
    {
        LoggingManager { entries: Vec::new() }
    }

    /// Records `msg` at the given severity.
    fn log(&mut self, level: LogLevel, msg: &str)
        ensures
            final(self).entries@.len() == old(self).entries@.len() + 1,
            forall|i: int|
                0 <= i < old(self).entries@.len() ==> final(self).entries@[i] == old(
                    self,
                ).entries@[i],
            final(self).entries@.last().level == level,
            final(self).entries@.last().message@ == msg@,
    {
        self.entries.push(LogEntry { level, message: String::from_str(msg) });
    }

    /// Records an informational message.
    pub fn info(&mut self, msg: &str)
        ensures
            final(self).entries@.len() == old(self).entries@.len() + 1,
            forall|i: int|
                0 <= i < old(self).entries@.len() ==> final(self).entries@[i] == old(
                    self,
                ).entries@[i],
            final(self).entries@.last().level == LogLevel::Info,
            final(self).entries@.last().message@ == msg@,
    {
        self.log(LogLevel::Info, msg);
    }

    /// Records a diagnostic message.
    pub fn debug(&mut self, msg: &str)
        ensures
            final(self).entries@.len() == old(self).entries@.len() + 1,
            forall|i: int|
                0 <= i < old(self).entries@.len() ==> final(self).entries@[i] == old(
                    self,
                ).entries@[i],
            final(self).entries@.last().level == LogLevel::Debug,
            final(self).entries@.last().message@ == msg@,
    {
        self.log(LogLevel::Debug, msg);
    }

    /// Records a warning.
    pub fn warn(&mut self, msg: &str)
        ensures
            final(self).entries@.len() == old(self).entries@.len() + 1,
            forall|i: int|
                0 <= i < old(self).entries@.len() ==> final(self).entries@[i] == old(
                    self,
                ).entries@[i],
            final(self).entries@.last().level == LogLevel::Warn,
            final(self).entries@.last().message@ == msg@,
    {
        self.log(LogLevel::Warn, msg);
    }

    /// Records a failure.
    pub fn error(&mut self, msg: &str)
        ensures
            final(self).entries@.len() == old(self).entries@.len() + 1,
            forall|i: int|
                0 <= i < old(self).entries@.len() ==> final(self).entries@[i] == old(
                    self,
                ).entries@[i],
            final(self).entries@.last().level == LogLevel::Error,
            final(self).entries@.last().message@ == msg@,
    {
        self.log(LogLevel::Error, msg);
    }

    /// Hands the recorded entries out and leaves the sink empty.
    pub fn take_entries(&mut self) -> (r: Vec<LogEntry>)
        ensures
            r@ == old(self).entries@,
            final(self).entries@.len() == 0,
    {
        let mut out: Vec<LogEntry> = Vec::new();
        core::mem::swap(&mut out, &mut self.entries);
        out
    }
}

} // verus!
