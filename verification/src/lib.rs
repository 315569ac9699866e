//! A verified model of a single-window desktop shell: what the host does at
//! startup, what the injected startup script does once the document has
//! loaded, and what the command that shows the window does.

pub mod action;
pub mod bootstrap;
pub mod command;
pub mod error;
pub mod logging;
pub mod script;
pub mod shell;
pub mod window;
