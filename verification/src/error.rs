//! The two ways in which the shell fails.

use vstd::prelude::*;
use vstd::string::StringExecFns;

verus! {

/// Why the shell gave up. Neither failure is retried: the caller decides
/// whether to end the process.
#[derive(Clone, Copy, Debug, PartialEq, Eq, Structural)]
pub enum ShellError {
    /// A startup step failed: the logging facility could not be attached, or
    /// the window could not be created.
    SetupFailed,
    /// The window could not be shown, for one because it does not exist.
    ShowFailed,
}

/// The message for a failed startup.
pub const SETUP_FAILED_MESSAGE: &'static str = "error while running tauri application";

/// The message for a failed show.
pub const SHOW_FAILED_MESSAGE: &'static str = "无法显示窗口";

impl ShellError {
    /// The text that describes the failure.
    pub open spec fn message_text(self) -> Seq<char> {
        match self {
            ShellError::SetupFailed => SETUP_FAILED_MESSAGE@,
            ShellError::ShowFailed => SHOW_FAILED_MESSAGE@,
        }
    }

    /// The text that describes the failure, for the one who aborts on it.
    pub fn message(&self) -> (s: String)
        ensures
            s@ == self.message_text(),
    {
        match self {
            ShellError::SetupFailed => String::from_str(SETUP_FAILED_MESSAGE),
            ShellError::ShowFailed => String::from_str(SHOW_FAILED_MESSAGE),
        }
    }
}

} // verus!
