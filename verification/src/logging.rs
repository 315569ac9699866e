//! Log levels and log entries.

use vstd::prelude::*;
use vstd::string::StringExecFns;

verus! {

/// How severe a log entry is, from the most severe to the least.
#[derive(Clone, Copy, Debug, PartialEq, Eq, Structural)]
pub enum LogLevel {
    Error,
    Warn,
    Info,
    Debug,
    Trace,
}

impl LogLevel {
    /// The level's place in the order: 1 for the most severe, 5 for the least.
    pub open spec fn rank(self) -> nat {
        match self {
            LogLevel::Error => 1,
            LogLevel::Warn => 2,
            LogLevel::Info => 3,
            LogLevel::Debug => 4,
            LogLevel::Trace => 5,
        }
    }

    fn rank_of(self) -> (r: u8)
        ensures
            r == self.rank(),
    {
        match self {
            LogLevel::Error => 1,
            LogLevel::Warn => 2,
            LogLevel::Info => 3,
            LogLevel::Debug => 4,
            LogLevel::Trace => 5,
        }
    }

    /// Whether an entry of this level passes a facility set to `threshold`:
    /// it does when it is at least as severe as the threshold.
    pub fn passes(self, threshold: LogLevel) -> (r: bool)
        ensures
            r == (self.rank() <= threshold.rank()),
    {
        self.rank_of() <= threshold.rank_of()
    }
}

/// One emitted log entry.
#[derive(Debug, PartialEq, Eq)]
pub struct LogEntry {
    pub level: LogLevel,
    pub message: String,
}

/// A log entry as a mathematical value.
pub struct LogEntryView {
    pub level: LogLevel,
    pub message: Seq<char>,
}

impl View for LogEntry {
    type V = LogEntryView;

    open spec fn view(&self) -> LogEntryView {
        LogEntryView { level: self.level, message: self.message@ }
    }
}

impl DeepView for LogEntry {
    type V = LogEntryView;

    open spec fn deep_view(&self) -> LogEntryView {
        self@
    }
}

impl Clone for LogEntry {
    fn clone(&self) -> (r: LogEntry)
        ensures
            r@ == self@,
    {
        LogEntry { level: self.level, message: self.message.clone() }
    }
}

/// The message of the entry that the show command emits.
pub const SHOW_MESSAGE: &'static str = "显示主窗口";

/// The entry that the show command emits: informational, saying that the main
/// window is being shown.
pub open spec fn show_entry_view() -> LogEntryView {
    LogEntryView { level: LogLevel::Info, message: SHOW_MESSAGE@ }
}

/// Builds the entry that the show command emits.
pub fn show_entry() -> (entry: LogEntry)
    ensures
        entry@ == show_entry_view(),
{
    LogEntry { level: LogLevel::Info, message: String::from_str(SHOW_MESSAGE) }
}

} // verus!
