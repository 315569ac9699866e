use window_shell::action::HostAction;
use window_shell::bootstrap::{run, BuildProfile};
use window_shell::command::show_main_window;
use window_shell::error::ShellError;
use window_shell::logging::{LogEntry, LogLevel};
use window_shell::script::{DocumentEvent, ScriptPhase};
use window_shell::shell::Shell;
use window_shell::window::{main_window_config, Window, WindowConfig};

fn config(label: &str, visible: bool) -> WindowConfig {
    WindowConfig {
        label: String::from(label),
        document: String::from("page.html"),
        visible,
        initialization_script: String::new(),
    }
}

fn entry(level: LogLevel, message: &str) -> LogEntry {
    LogEntry { level, message: String::from(message) }
}

#[test]
fn fresh_shell_is_empty() {
    let shell = Shell::new();
    assert_eq!(shell.logging(), None);
    assert_eq!(shell.window_count(), 0);
    assert!(shell.windows().is_empty());
    assert!(shell.log().is_empty());
    assert!(!shell.has_window("main"));
    assert!(!shell.is_visible("main"));
}

#[test]
fn window_opens_as_configured() {
    assert_eq!(
        Window::open(&main_window_config()),
        Window {
            label: String::from("main"),
            document: String::from("index.html"),
            visible: false,
            script: Some(ScriptPhase::AwaitingLoad),
        }
    );
    assert_eq!(
        Window::open(&config("about", true)),
        Window {
            label: String::from("about"),
            document: String::from("page.html"),
            visible: true,
            script: None,
        }
    );
}

#[test]
fn window_without_the_script_is_not_shown_by_its_document() {
    let mut shell = Shell::new();
    assert_eq!(shell.create_window(&config("plain", false)), Ok(()));
    shell.document_event("plain", DocumentEvent::LoadComplete);
    shell.document_event("plain", DocumentEvent::TimerElapsed);
    assert!(!shell.is_visible("plain"));
    assert_eq!(shell.windows()[0].script, None);
}

#[test]
fn config_clone_is_equal() {
    let config = main_window_config();
    assert_eq!(config.clone(), config);
}

#[test]
fn create_window_refuses_a_label_that_is_taken() {
    let mut shell = Shell::new();
    assert_eq!(shell.create_window(&config("main", false)), Ok(()));
    assert_eq!(shell.create_window(&config("main", true)), Err(ShellError::SetupFailed));
    assert_eq!(shell.window_count(), 1);
    assert!(!shell.is_visible("main"));
    assert_eq!(shell.create_window(&config("other", true)), Ok(()));
    assert_eq!(shell.window_count(), 2);
    assert!(shell.is_visible("other"));
}

#[test]
fn attach_logging_refuses_a_second_facility() {
    let mut shell = Shell::new();
    assert_eq!(shell.attach_logging(LogLevel::Info), Ok(()));
    assert_eq!(shell.attach_logging(LogLevel::Debug), Err(ShellError::SetupFailed));
    assert_eq!(shell.logging(), Some(LogLevel::Info));
}

#[test]
fn show_window_fails_on_an_unknown_label() {
    let mut shell = Shell::new();
    assert_eq!(shell.create_window(&config("main", false)), Ok(()));
    assert_eq!(shell.show_window("other"), Err(ShellError::ShowFailed));
    assert!(!shell.is_visible("main"));
    assert_eq!(shell.show_window("main"), Ok(()));
    assert!(shell.is_visible("main"));
}

#[test]
fn emit_appends_in_order() {
    let mut shell = Shell::new();
    shell.emit(entry(LogLevel::Warn, "first"));
    shell.emit(entry(LogLevel::Trace, "second"));
    assert_eq!(
        shell.log(),
        &vec![entry(LogLevel::Warn, "first"), entry(LogLevel::Trace, "second")]
    );
}

#[test]
fn info_facility_captures_info_and_above() {
    let mut shell = Shell::new();
    assert_eq!(run(&mut shell, BuildProfile::Debug), Ok(()));
    assert!(shell.captures(LogLevel::Error));
    assert!(shell.captures(LogLevel::Warn));
    assert!(shell.captures(LogLevel::Info));
    assert!(!shell.captures(LogLevel::Debug));
    assert!(!shell.captures(LogLevel::Trace));
}

#[test]
fn release_shell_captures_nothing() {
    let mut shell = Shell::new();
    assert_eq!(run(&mut shell, BuildProfile::Release), Ok(()));
    assert!(!shell.captures(LogLevel::Error));
    assert!(!shell.captures(LogLevel::Info));
}

#[test]
fn level_passes_a_threshold_that_is_no_more_severe() {
    assert!(LogLevel::Info.passes(LogLevel::Info));
    assert!(LogLevel::Error.passes(LogLevel::Info));
    assert!(!LogLevel::Debug.passes(LogLevel::Info));
    assert!(LogLevel::Trace.passes(LogLevel::Trace));
    assert!(!LogLevel::Warn.passes(LogLevel::Error));
}

#[test]
fn perform_takes_each_action() {
    let mut shell = Shell::new();
    assert_eq!(shell.perform(&HostAction::AttachLogging { level: LogLevel::Info }), Ok(()));
    assert_eq!(shell.perform(&HostAction::CreateWindow { config: config("main", false) }), Ok(()));
    assert_eq!(shell.perform(&HostAction::Log { entry: entry(LogLevel::Info, "hello") }), Ok(()));
    assert_eq!(shell.perform(&HostAction::ShowWindow { label: String::from("main") }), Ok(()));
    assert_eq!(shell.logging(), Some(LogLevel::Info));
    assert!(shell.is_visible("main"));
    assert_eq!(shell.log(), &vec![entry(LogLevel::Info, "hello")]);
    assert_eq!(
        shell.perform(&HostAction::ShowWindow { label: String::from("gone") }),
        Err(ShellError::ShowFailed)
    );
    assert_eq!(
        shell.perform(&HostAction::CreateWindow { config: config("main", false) }),
        Err(ShellError::SetupFailed)
    );
    assert_eq!(
        shell.perform(&HostAction::AttachLogging { level: LogLevel::Info }),
        Err(ShellError::SetupFailed)
    );
}

#[test]
fn execute_stops_at_the_first_failure() {
    let mut shell = Shell::new();
    let plan = vec![
        HostAction::Log { entry: entry(LogLevel::Info, "before") },
        HostAction::ShowWindow { label: String::from("main") },
        HostAction::Log { entry: entry(LogLevel::Info, "after") },
        HostAction::CreateWindow { config: config("main", false) },
    ];
    assert_eq!(shell.execute(&plan), Err(ShellError::ShowFailed));
    assert_eq!(shell.log(), &vec![entry(LogLevel::Info, "before")]);
    assert_eq!(shell.window_count(), 0);
}

#[test]
fn execute_of_an_empty_plan_changes_nothing() {
    let mut shell = Shell::new();
    assert_eq!(shell.execute(&Vec::new()), Ok(()));
    assert_eq!(shell.window_count(), 0);
    assert!(shell.log().is_empty());
    assert_eq!(shell.logging(), None);
}

#[test]
fn window_stays_hidden_until_load_and_delay() {
    let mut shell = Shell::new();
    assert_eq!(run(&mut shell, BuildProfile::Release), Ok(()));
    shell.document_event("main", DocumentEvent::TimerElapsed);
    assert!(!shell.is_visible("main"));
    assert_eq!(shell.windows()[0].script, Some(ScriptPhase::AwaitingLoad));
    shell.document_event("main", DocumentEvent::LoadComplete);
    assert!(!shell.is_visible("main"));
    assert_eq!(shell.windows()[0].script, Some(ScriptPhase::Delaying));
    shell.document_event("main", DocumentEvent::TimerElapsed);
    assert!(shell.is_visible("main"));
    assert_eq!(shell.windows()[0].script, Some(ScriptPhase::Shown));
}

#[test]
fn document_event_for_an_unknown_window_changes_nothing() {
    let mut shell = Shell::new();
    assert_eq!(run(&mut shell, BuildProfile::Release), Ok(()));
    let before = shell.windows().clone();
    shell.document_event("other", DocumentEvent::LoadComplete);
    assert_eq!(shell.windows(), &before);
}

#[test]
fn command_and_script_may_both_show_the_window() {
    let mut shell = Shell::new();
    assert_eq!(run(&mut shell, BuildProfile::Debug), Ok(()));
    shell.document_event("main", DocumentEvent::LoadComplete);
    assert_eq!(show_main_window(&mut shell), Ok(()));
    assert!(shell.is_visible("main"));
    assert_eq!(shell.windows()[0].script, Some(ScriptPhase::Delaying));
    shell.document_event("main", DocumentEvent::TimerElapsed);
    assert!(shell.is_visible("main"));
    assert_eq!(shell.windows()[0].script, Some(ScriptPhase::Shown));
    assert_eq!(shell.log().len(), 1);
}
