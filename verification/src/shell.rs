//! The shell's state: the logging facility, the windows and the log, owned by
//! one value that is handed to whatever needs them.

use crate::action::{HostAction, HostActionView};
use crate::error::ShellError;
use crate::logging::{LogEntry, LogEntryView, LogLevel};
use crate::script::{script_step, script_step_spec, DocumentEvent, ScriptAction, ScriptPhase};
use crate::window::{window_of, Window, WindowConfig, WindowConfigView, WindowView};
use vstd::prelude::*;
use vstd::string::StringExecFns;

verus! {

/// The shell's state as a mathematical value.
pub struct ShellView {
    /// The level that the logging facility captures from, if one is attached.
    pub logging: Option<LogLevel>,
    /// The windows that exist, in the order of their creation.
    pub windows: Seq<WindowView>,
    /// Every entry emitted so far, oldest first.
    pub log: Seq<LogEntryView>,
}

/// `window`, on screen.
pub open spec fn shown(window: WindowView) -> WindowView {
    WindowView { visible: true, ..window }
}

/// `window` after its document has sent `event`. The delayed-show script,
/// where the window has it, moves on, and the window is on screen once the
/// script has asked for that. A window without the script stays as it is.
pub open spec fn after_event(window: WindowView, event: DocumentEvent) -> WindowView {
    match window.script {
        Some(phase) => {
            let step = script_step_spec(phase, event);
            WindowView {
                script: Some(step.0),
                visible: window.visible || step.1 == Some(ScriptAction::ShowWindow),
                ..window
            }
        },
        None => window,
    }
}

impl ShellView {
    /// A shell in which nothing has happened yet.
    pub open spec fn fresh() -> ShellView {
        ShellView { logging: None, windows: Seq::empty(), log: Seq::empty() }
    }

    /// No two windows share a label.
    pub open spec fn wf(self) -> bool {
        forall|i: int, j: int|
            0 <= i < j < self.windows.len() ==> self.windows[i].label != self.windows[j].label
    }

    /// Whether a window named `label` exists.
    pub open spec fn has_window(self, label: Seq<char>) -> bool {
        exists|i: int| 0 <= i < self.windows.len() && self.windows[i].label == label
    }

    /// Whether exactly one window is named `label`.
    pub open spec fn has_one_window(self, label: Seq<char>) -> bool {
        exists|i: int|
            0 <= i < self.windows.len() && self.windows[i].label == label && forall|j: int|
                0 <= j < self.windows.len() && j != i ==> self.windows[j].label != label
    }

    /// Whether a window named `label` exists and is on screen.
    pub open spec fn is_visible(self, label: Seq<char>) -> bool {
        exists|i: int|
            0 <= i < self.windows.len() && self.windows[i].label == label
                && self.windows[i].visible
    }

    /// Whether an entry of `level` would be captured: a facility is attached
    /// and the entry is at least as severe as the facility's level.
    pub open spec fn captures(self, level: LogLevel) -> bool {
        match self.logging {
            Some(threshold) => level.rank() <= threshold.rank(),
            None => false,
        }
    }

    /// Attaching the logging facility: it fails, and changes nothing, where
    /// one is attached already.
    pub open spec fn attach_logging(self, level: LogLevel) -> (ShellView, Result<(), ShellError>) {
        if self.logging is Some {
            (self, Err(ShellError::SetupFailed))
        } else {
            (ShellView { logging: Some(level), ..self }, Ok(()))
        }
    }

    /// Creating a window: it fails, and changes nothing, where a window of
    /// that label exists already.
    pub open spec fn create_window(self, config: WindowConfigView) -> (
        ShellView,
        Result<(), ShellError>,
    ) {
        if self.has_window(config.label) {
            (self, Err(ShellError::SetupFailed))
        } else {
            (ShellView { windows: self.windows.push(window_of(config)), ..self }, Ok(()))
        }
    }

    /// Emitting a log entry, which cannot fail.
    pub open spec fn emit(self, entry: LogEntryView) -> ShellView {
        ShellView { log: self.log.push(entry), ..self }
    }

    /// Showing the window named `label`: it fails, and changes nothing,
    /// where no such window exists.
    pub open spec fn show_window(self, label: Seq<char>) -> (ShellView, Result<(), ShellError>) {
        if self.has_window(label) {
            (
                ShellView {
                    windows: self.windows.map_values(
                        |w: WindowView|
                            if w.label == label {
                                shown(w)
                            } else {
                                w
                            },
                    ),
                    ..self
                },
                Ok(()),
            )
        } else {
            (self, Err(ShellError::ShowFailed))
        }
    }

    /// Delivering `event` from the document of the window named `label`.
    /// Where no such window exists, nothing changes.
    pub open spec fn document_event(self, label: Seq<char>, event: DocumentEvent) -> ShellView {
        ShellView {
            windows: self.windows.map_values(
                |w: WindowView|
                    if w.label == label {
                        after_event(w, event)
                    } else {
                        w
                    },
            ),
            ..self
        }
    }

    /// Carrying out one action.
    pub open spec fn perform(self, action: HostActionView) -> (ShellView, Result<(), ShellError>) {
        match action {
            HostActionView::AttachLogging { level } => self.attach_logging(level),
            HostActionView::CreateWindow { config } => self.create_window(config),
            HostActionView::Log { entry } => (self.emit(entry), Ok(())),
            HostActionView::ShowWindow { label } => self.show_window(label),
        }
    }

    /// Carrying out `plan` in order, up to and including the first action
    /// that fails; the actions after that one are not taken.
    pub open spec fn execute(self, plan: Seq<HostActionView>) -> (
        ShellView,
        Result<(), ShellError>,
    )
        decreases plan.len(),
    {
        if plan.len() == 0 {
            (self, Ok(()))
        } else {
            let first = self.perform(plan.first());
            if first.1 is Ok {
                first.0.execute(plan.drop_first())
            } else {
                first
            }
        }
    }
}

/// A document puts its window on screen in one way only: the window has the
/// delayed-show script, the delay is running, and the timer runs out. And the
/// delay starts running in one way only: the script was waiting and the
/// document has loaded.
pub proof fn lemma_document_shows_only_after_delay(window: WindowView, event: DocumentEvent)
    ensures
        after_event(window, event).visible <==> window.visible || (window.script == Some(
            ScriptPhase::Delaying,
        ) && event == DocumentEvent::TimerElapsed),
        after_event(window, event).script == Some(ScriptPhase::Delaying) ==> window.script
            == Some(ScriptPhase::Delaying) || (window.script == Some(ScriptPhase::AwaitingLoad)
            && event == DocumentEvent::LoadComplete),
{
}

/// No action ever gives two windows the same label: a shell in which the
/// labels differ keeps them different through every action.
pub proof fn lemma_perform_keeps_labels_apart(shell: ShellView, action: HostActionView)
    requires
        shell.wf(),
    ensures
        shell.perform(action).0.wf(),
{
    let after = shell.perform(action).0;
    assert forall|i: int, j: int| 0 <= i < j < after.windows.len() implies after.windows[i].label
        != after.windows[j].label by {
        if j < shell.windows.len() {
            assert(after.windows[i].label == shell.windows[i].label);
            assert(after.windows[j].label == shell.windows[j].label);
        } else {
            assert(after.windows[i] == shell.windows[i]);
        }
    }
}

/// A plan of any length keeps the labels apart as well.
pub proof fn lemma_execute_keeps_labels_apart(shell: ShellView, plan: Seq<HostActionView>)
    requires
        shell.wf(),
    ensures
        shell.execute(plan).0.wf(),
    decreases plan.len(),
{
    if plan.len() > 0 {
        lemma_perform_keeps_labels_apart(shell, plan.first());
        let first = shell.perform(plan.first());
        if first.1 is Ok {
            lemma_execute_keeps_labels_apart(first.0, plan.drop_first());
        }
    }
}

/// An event from a document changes no label.
pub proof fn lemma_document_event_keeps_labels_apart(
    shell: ShellView,
    label: Seq<char>,
    event: DocumentEvent,
)
    requires
        shell.wf(),
    ensures
        shell.document_event(label, event).wf(),
{
    let after = shell.document_event(label, event);
    assert forall|i: int, j: int| 0 <= i < j < after.windows.len() implies after.windows[i].label
        != after.windows[j].label by {
        assert(after.windows[i].label == shell.windows[i].label);
        assert(after.windows[j].label == shell.windows[j].label);
    }
}

/// The shell: the one owner of the logging facility, the windows and the
/// log.
pub struct Shell {
    logging: Option<LogLevel>,
    windows: Vec<Window>,
    log: Vec<LogEntry>,
}

impl View for Shell {
    type V = ShellView;

    closed spec fn view(&self) -> ShellView {
        ShellView {
            logging: self.logging,
            windows: self.windows.deep_view(),
            log: self.log.deep_view(),
        }
    }
}

impl Shell {
    /// A shell in which nothing has happened yet.
    pub fn new() -> (shell: Shell)
        ensures
            shell@ == ShellView::fresh(),
    {
        let shell = Shell { logging: None, windows: Vec::new(), log: Vec::new() };
        assert(shell@.windows =~= Seq::empty());
        assert(shell@.log =~= Seq::empty());
        shell
    }

    /// The index of the first window named `label`, if one exists.
    fn position(&self, label: &String) -> (r: Option<usize>)
        ensures
            match r {
                Some(i) => i < self@.windows.len() && self@.windows[i as int].label == label@
                    && forall|j: int| 0 <= j < i ==> self@.windows[j].label != label@,
                None => !self@.has_window(label@),
            },
    {
        let mut i: usize = 0;
        while i < self.windows.len()
            invariant
                i <= self.windows.len(),
                self@.windows.len() == self.windows.len(),
                forall|j: int| 0 <= j < i ==> self@.windows[j].label != label@,
            decreases self.windows.len() - i,
        {
            if self.windows[i].label == *label {
                return Some(i);
            }
            i += 1;
        }
        None
    }

    /// Attaches the logging facility, set to capture `level` and above.
    pub fn attach_logging(&mut self, level: LogLevel) -> (r: Result<(), ShellError>)
        ensures
            (final(self)@, r) == old(self)@.attach_logging(level),
    {
        if self.logging.is_some() {
            Err(ShellError::SetupFailed)
        } else {
            self.logging = Some(level);
            Ok(())
        }
    }

    /// How many windows exist.
    pub fn window_count(&self) -> (n: usize)
        ensures
            n == self@.windows.len(),
    {
        self.windows.len()
    }

    /// The windows that exist, in the order of their creation.
    pub fn windows(&self) -> (windows: &Vec<Window>)
        ensures
            windows.deep_view() == self@.windows,
    {
        &self.windows
    }

    /// Every entry emitted so far, oldest first.
    pub fn log(&self) -> (log: &Vec<LogEntry>)
        ensures
            log.deep_view() == self@.log,
    {
        &self.log
    }

    /// The level that the logging facility captures from, if one is attached.
    pub fn logging(&self) -> (level: Option<LogLevel>)
        ensures
            level == self@.logging,
    {
        self.logging
    }

    /// Whether an entry of `level` would be captured.
    pub fn captures(&self, level: LogLevel) -> (r: bool)
        ensures
            r == self@.captures(level),
    {
        match self.logging {
            Some(threshold) => level.passes(threshold),
            None => false,
        }
    }

    /// Whether a window named `label` exists.
    pub fn has_window(&self, label: &str) -> (r: bool)
        ensures
            r == self@.has_window(label@),
    {
        let wanted = String::from_str(label);
        self.position(&wanted).is_some()
    }

    /// Whether a window named `label` exists and is on screen.
    pub fn is_visible(&self, label: &str) -> (r: bool)
        ensures
            r == self@.is_visible(label@),
    {
        let wanted = String::from_str(label);
        let mut i: usize = 0;
        while i < self.windows.len()
            invariant
                i <= self.windows.len(),
                self@.windows.len() == self.windows.len(),
                wanted@ == label@,
                forall|j: int|
                    0 <= j < i ==> !(#[trigger] self@.windows[j].label == label@
                        && self@.windows[j].visible),
            decreases self.windows.len() - i,
        {
            if self.windows[i].visible && self.windows[i].label == wanted {
                assert(self@.windows[i as int].label == label@ && self@.windows[i as int].visible);
                return true;
            }
            i += 1;
        }
        false
    }

    /// Creates a window from `config`.
    pub fn create_window(&mut self, config: &WindowConfig) -> (r: Result<(), ShellError>)
        ensures
            (final(self)@, r) == old(self)@.create_window(config@),
    {
        match self.position(&config.label) {
            Some(_) => Err(ShellError::SetupFailed),
            None => {
                let window = Window::open(config);
                self.windows.push(window);
                assert(self@.windows =~= old(self)@.windows.push(window_of(config@)));
                Ok(())
            },
        }
    }

    /// Emits `entry` to the log.
    pub fn emit(&mut self, entry: LogEntry)
        ensures
            final(self)@ == old(self)@.emit(entry@),
    {
        self.log.push(entry);
        assert(self@.log =~= old(self)@.log.push(entry@));
    }

    /// Makes the window named `label` visible.
    pub fn show_window(&mut self, label: &str) -> (r: Result<(), ShellError>)
        ensures
            (final(self)@, r) == old(self)@.show_window(label@),
    {
        let wanted = String::from_str(label);
        let mut found = false;
        let mut i: usize = 0;
        while i < self.windows.len()
            invariant
                i <= self.windows.len(),
                wanted@ == label@,
                self@.logging == old(self)@.logging,
                self@.log == old(self)@.log,
                self@.windows.len() == old(self)@.windows.len(),
                self@.windows.len() == self.windows.len(),
                found <==> exists|j: int| 0 <= j < i && old(self)@.windows[j].label == label@,
                forall|j: int|
                    0 <= j < i ==> #[trigger] self@.windows[j] == if old(self)@.windows[j].label
                        == label@ {
                        shown(old(self)@.windows[j])
                    } else {
                        old(self)@.windows[j]
                    },
                forall|j: int|
                    i <= j < self.windows.len() ==> #[trigger] self@.windows[j] == old(
                        self,
                    )@.windows[j],
            decreases self.windows.len() - i,
        {
            let ghost before = self@.windows;
            assert(before[i as int] == old(self)@.windows[i as int]);
            if self.windows[i].label == wanted {
                self.windows[i].visible = true;
                found = true;
                assert(self@.windows[i as int] == shown(before[i as int]));
            }
            assert forall|j: int| 0 <= j <= i implies #[trigger] self@.windows[j] == if old(
                self,
            )@.windows[j].label == label@ {
                shown(old(self)@.windows[j])
            } else {
                old(self)@.windows[j]
            } by {
                if j < i {
                    assert(self@.windows[j] == before[j]);
                }
            }
            assert forall|j: int| i < j < self.windows.len() implies #[trigger] self@.windows[j]
                == old(self)@.windows[j] by {
                assert(self@.windows[j] == before[j]);
            }
            i += 1;
        }
        if found {
            assert(self@.windows =~= old(self)@.show_window(label@).0.windows);
            Ok(())
        } else {
            assert(self@.windows =~= old(self)@.windows);
            Err(ShellError::ShowFailed)
        }
    }

    /// Delivers `event` from the document of the window named `label`.
    pub fn document_event(&mut self, label: &str, event: DocumentEvent)
        ensures
            final(self)@ == old(self)@.document_event(label@, event),
    {
        let wanted = String::from_str(label);
        let mut i: usize = 0;
        while i < self.windows.len()
            invariant
                i <= self.windows.len(),
                wanted@ == label@,
                self@.logging == old(self)@.logging,
                self@.log == old(self)@.log,
                self@.windows.len() == old(self)@.windows.len(),
                self@.windows.len() == self.windows.len(),
                forall|j: int|
                    0 <= j < i ==> #[trigger] self@.windows[j] == if old(self)@.windows[j].label
                        == label@ {
                        after_event(old(self)@.windows[j], event)
                    } else {
                        old(self)@.windows[j]
                    },
                forall|j: int|
                    i <= j < self.windows.len() ==> #[trigger] self@.windows[j] == old(
                        self,
                    )@.windows[j],
            decreases self.windows.len() - i,
        {
            let ghost before = self@.windows;
            assert(before[i as int] == old(self)@.windows[i as int]);
            if self.windows[i].label == wanted {
                match self.windows[i].script {
                    Some(phase) => {
                        let (next, action) = script_step(phase, event);
                        self.windows[i].script = Some(next);
                        match action {
                            Some(ScriptAction::ShowWindow) => {
                                self.windows[i].visible = true;
                            },
                            _ => {},
                        }
                    },
                    None => {},
                }
                assert(self@.windows[i as int] == after_event(before[i as int], event));
            }
            assert forall|j: int| 0 <= j <= i implies #[trigger] self@.windows[j] == if old(
                self,
            )@.windows[j].label == label@ {
                after_event(old(self)@.windows[j], event)
            } else {
                old(self)@.windows[j]
            } by {
                if j < i {
                    assert(self@.windows[j] == before[j]);
                }
            }
            assert forall|j: int| i < j < self.windows.len() implies #[trigger] self@.windows[j]
                == old(self)@.windows[j] by {
                assert(self@.windows[j] == before[j]);
            }
            i += 1;
        }
        assert(self@.windows =~= old(self)@.document_event(label@, event).windows);
    }

    /// Carries out one action.
    pub fn perform(&mut self, action: &HostAction) -> (r: Result<(), ShellError>)
        ensures
            (final(self)@, r) == old(self)@.perform(action@),
    {
        match action {
            HostAction::AttachLogging { level } => self.attach_logging(*level),
            HostAction::CreateWindow { config } => self.create_window(config),
            HostAction::Log { entry } => {
                self.emit(entry.clone());
                Ok(())
            },
            HostAction::ShowWindow { label } => self.show_window(label.as_str()),
        }
    }

    /// Carries out `plan` in order and stops at the first action that fails.
    pub fn execute(&mut self, plan: &Vec<HostAction>) -> (r: Result<(), ShellError>)
        ensures
            (final(self)@, r) == old(self)@.execute(plan.deep_view()),
    {
        let mut i: usize = 0;
        assert(plan.deep_view().skip(0) =~= plan.deep_view());
        while i < plan.len()
            invariant
                i <= plan.len(),
                plan.deep_view().len() == plan.len(),
                old(self)@.execute(plan.deep_view()) == self@.execute(
                    plan.deep_view().skip(i as int),
                ),
            decreases plan.len() - i,
        {
            let ghost rest = plan.deep_view().skip(i as int);
            assert(rest.first() == plan[i as int]@);
            assert(rest.drop_first() =~= plan.deep_view().skip(i + 1));
            match self.perform(&plan[i]) {
                Ok(()) => {},
                Err(e) => {
                    return Err(e);
                },
            }
            i += 1;
        }
        Ok(())
    }
}

} // verus!
