//! Windows: how one is asked for, and what the shell knows of one that
//! exists.

use crate::script::{initialization_script, script_text, ScriptPhase, SHOW_DELAY_MS};
use vstd::prelude::*;
use vstd::string::StringExecFns;

verus! {

/// The label of the shell's one window.
pub const MAIN_LABEL: &'static str = "main";

/// The bundled document that the main window loads.
pub const MAIN_DOCUMENT: &'static str = "index.html";

/// What a window is created from.
#[derive(Debug, PartialEq, Eq)]
pub struct WindowConfig {
    /// The name by which the window is found.
    pub label: String,
    /// The local document that the window loads.
    pub document: String,
    /// Whether the window is visible as soon as it exists.
    pub visible: bool,
    /// Script that runs in the document before the document's own scripts.
    pub initialization_script: String,
}

/// A window configuration as a mathematical value.
pub struct WindowConfigView {
    pub label: Seq<char>,
    pub document: Seq<char>,
    pub visible: bool,
    pub initialization_script: Seq<char>,
}

impl View for WindowConfig {
    type V = WindowConfigView;

    open spec fn view(&self) -> WindowConfigView {
        WindowConfigView {
            label: self.label@,
            document: self.document@,
            visible: self.visible,
            initialization_script: self.initialization_script@,
        }
    }
}

impl Clone for WindowConfig {
    fn clone(&self) -> (r: WindowConfig)
        ensures
            r@ == self@,
    {
        WindowConfig {
            label: self.label.clone(),
            document: self.document.clone(),
            visible: self.visible,
            initialization_script: self.initialization_script.clone(),
        }
    }
}

/// The main window's configuration: labelled "main", on the bundled
/// document, hidden at first, with the script that shows it once the document
/// has loaded and the delay has passed.
pub open spec fn main_window_config_view() -> WindowConfigView {
    WindowConfigView {
        label: MAIN_LABEL@,
        document: MAIN_DOCUMENT@,
        visible: false,
        initialization_script: script_text(SHOW_DELAY_MS as nat),
    }
}

/// Builds the main window's configuration.
pub fn main_window_config() -> (config: WindowConfig)
    ensures
        config@ == main_window_config_view(),
{
    WindowConfig {
        label: String::from_str(MAIN_LABEL),
        document: String::from_str(MAIN_DOCUMENT),
        visible: false,
        initialization_script: initialization_script(),
    }
}

/// A window that exists.
#[derive(Debug, PartialEq, Eq)]
pub struct Window {
    /// The name by which the window is found.
    pub label: String,
    /// The document that the window has loaded.
    pub document: String,
    /// Whether the window is on screen.
    pub visible: bool,
    /// Where the delayed-show script stands in the window's document; `None`
    /// where the window was created without that script.
    pub script: Option<ScriptPhase>,
}

/// A window as a mathematical value.
pub struct WindowView {
    pub label: Seq<char>,
    pub document: Seq<char>,
    pub visible: bool,
    pub script: Option<ScriptPhase>,
}

impl View for Window {
    type V = WindowView;

    open spec fn view(&self) -> WindowView {
        WindowView {
            label: self.label@,
            document: self.document@,
            visible: self.visible,
            script: self.script,
        }
    }
}

impl DeepView for Window {
    type V = WindowView;

    open spec fn deep_view(&self) -> WindowView {
        self@
    }
}

impl Clone for Window {
    fn clone(&self) -> (r: Window)
        ensures
            r@ == self@,
    {
        Window {
            label: self.label.clone(),
            document: self.document.clone(),
            visible: self.visible,
            script: self.script,
        }
    }
}

/// The window that `config` gives: as visible as the configuration says.
/// Where the configuration injects the delayed-show script, that script is
/// waiting for the document to load.
pub open spec fn window_of(config: WindowConfigView) -> WindowView {
    WindowView {
        label: config.label,
        document: config.document,
        visible: config.visible,
        script: if config.initialization_script == script_text(SHOW_DELAY_MS as nat) {
            Some(ScriptPhase::AwaitingLoad)
        } else {
            None
        },
    }
}

impl Window {
    /// The window that `config` gives.
    pub fn open(config: &WindowConfig) -> (w: Window)
        ensures
            w@ == window_of(config@),
    {
        let script = if config.initialization_script == initialization_script() {
            Some(ScriptPhase::AwaitingLoad)
        } else {
            None
        };
        Window {
            label: config.label.clone(),
            document: config.document.clone(),
            visible: config.visible,
            script,
        }
    }
}

} // verus!
