//! What the shell asks of its host. The shell decides which actions are
//! taken and in which order; the host carries them out and says of each
//! whether it succeeded.

use crate::logging::{LogEntry, LogEntryView, LogLevel};
use crate::window::{WindowConfig, WindowConfigView};
use vstd::prelude::*;

verus! {

/// One thing for the host to do.
#[derive(Debug, PartialEq, Eq)]
pub enum HostAction {
    /// Attach the logging facility, set to capture `level` and above.
    AttachLogging { level: LogLevel },
    /// Create a window from `config`.
    CreateWindow { config: WindowConfig },
    /// Emit `entry` to the log.
    Log { entry: LogEntry },
    /// Make the window named `label` visible.
    ShowWindow { label: String },
}

/// An action as a mathematical value.
pub enum HostActionView {
    AttachLogging { level: LogLevel },
    CreateWindow { config: WindowConfigView },
    Log { entry: LogEntryView },
    ShowWindow { label: Seq<char> },
}

impl View for HostAction {
    type V = HostActionView;

    open spec fn view(&self) -> HostActionView {
        match self {
            HostAction::AttachLogging { level } => HostActionView::AttachLogging { level: *level },
            HostAction::CreateWindow { config } => HostActionView::CreateWindow { config: config@ },
            HostAction::Log { entry } => HostActionView::Log { entry: entry@ },
            HostAction::ShowWindow { label } => HostActionView::ShowWindow { label: label@ },
        }
    }
}

impl DeepView for HostAction {
    type V = HostActionView;

    open spec fn deep_view(&self) -> HostActionView {
        self@
    }
}

} // verus!
