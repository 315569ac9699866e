use window_shell::action::HostAction;
use window_shell::bootstrap::{run, startup_plan, BuildProfile};
use window_shell::error::ShellError;
use window_shell::logging::LogLevel;
use window_shell::script::{initialization_script, ScriptPhase};
use window_shell::shell::Shell;
use window_shell::window::{main_window_config, Window, WindowConfig};

fn count_creates(plan: &[HostAction]) -> usize {
    plan.iter().filter(|a| matches!(a, HostAction::CreateWindow { .. })).count()
}

fn count_attaches(plan: &[HostAction]) -> usize {
    plan.iter().filter(|a| matches!(a, HostAction::AttachLogging { .. })).count()
}

#[test]
fn main_window_config_is_hidden_main_on_the_bundled_document() {
    let config = main_window_config();
    assert_eq!(config.label, "main");
    assert_eq!(config.document, "index.html");
    assert!(!config.visible);
    assert_eq!(config.initialization_script, initialization_script());
}

#[test]
fn debug_plan_attaches_logging_then_creates_the_window() {
    let plan = startup_plan(BuildProfile::Debug);
    assert_eq!(
        plan,
        vec![
            HostAction::AttachLogging { level: LogLevel::Info },
            HostAction::CreateWindow { config: main_window_config() },
        ]
    );
}

#[test]
fn release_plan_only_creates_the_window() {
    let plan = startup_plan(BuildProfile::Release);
    assert_eq!(plan, vec![HostAction::CreateWindow { config: main_window_config() }]);
    assert_eq!(count_attaches(&plan), 0);
}

#[test]
fn every_plan_creates_exactly_one_window() {
    assert_eq!(count_creates(&startup_plan(BuildProfile::Debug)), 1);
    assert_eq!(count_creates(&startup_plan(BuildProfile::Release)), 1);
}

#[test]
fn debug_run_on_a_fresh_shell() {
    let mut shell = Shell::new();
    assert_eq!(run(&mut shell, BuildProfile::Debug), Ok(()));
    assert_eq!(shell.logging(), Some(LogLevel::Info));
    assert_eq!(shell.window_count(), 1);
    assert_eq!(
        shell.windows(),
        &vec![Window {
            label: String::from("main"),
            document: String::from("index.html"),
            visible: false,
            script: Some(ScriptPhase::AwaitingLoad),
        }]
    );
    assert!(shell.has_window("main"));
    assert!(!shell.is_visible("main"));
    assert!(shell.log().is_empty());
}

#[test]
fn release_run_on_a_fresh_shell() {
    let mut shell = Shell::new();
    assert_eq!(run(&mut shell, BuildProfile::Release), Ok(()));
    assert_eq!(shell.logging(), None);
    assert_eq!(shell.window_count(), 1);
    assert!(shell.has_window("main"));
    assert!(!shell.is_visible("main"));
    assert!(shell.log().is_empty());
}

#[test]
fn second_release_run_fails_on_the_window() {
    let mut shell = Shell::new();
    assert_eq!(run(&mut shell, BuildProfile::Release), Ok(()));
    assert_eq!(run(&mut shell, BuildProfile::Release), Err(ShellError::SetupFailed));
    assert_eq!(shell.window_count(), 1);
    assert_eq!(shell.logging(), None);
}

#[test]
fn second_debug_run_fails_on_logging() {
    let mut shell = Shell::new();
    assert_eq!(run(&mut shell, BuildProfile::Debug), Ok(()));
    assert_eq!(run(&mut shell, BuildProfile::Debug), Err(ShellError::SetupFailed));
    assert_eq!(shell.window_count(), 1);
    assert_eq!(shell.logging(), Some(LogLevel::Info));
}

#[test]
fn debug_run_creates_no_window_where_logging_cannot_attach() {
    let mut shell = Shell::new();
    assert_eq!(shell.attach_logging(LogLevel::Trace), Ok(()));
    assert_eq!(run(&mut shell, BuildProfile::Debug), Err(ShellError::SetupFailed));
    assert_eq!(shell.window_count(), 0);
    assert_eq!(shell.logging(), Some(LogLevel::Trace));
}

#[test]
fn debug_run_keeps_logging_where_the_window_cannot_be_created() {
    let mut shell = Shell::new();
    let taken = WindowConfig {
        label: String::from("main"),
        document: String::from("other.html"),
        visible: true,
        initialization_script: String::new(),
    };
    assert_eq!(shell.create_window(&taken), Ok(()));
    assert_eq!(run(&mut shell, BuildProfile::Debug), Err(ShellError::SetupFailed));
    assert_eq!(shell.logging(), Some(LogLevel::Info));
    assert_eq!(shell.window_count(), 1);
    assert_eq!(shell.windows()[0].document, "other.html");
}

#[test]
fn release_run_leaves_an_attached_facility_alone() {
    let mut shell = Shell::new();
    assert_eq!(shell.attach_logging(LogLevel::Warn), Ok(()));
    assert_eq!(run(&mut shell, BuildProfile::Release), Ok(()));
    assert_eq!(shell.logging(), Some(LogLevel::Warn));
    assert_eq!(shell.window_count(), 1);
}

#[test]
fn run_is_what_executing_the_plan_is() {
    let mut ran = Shell::new();
    let mut executed = Shell::new();
    let r = run(&mut ran, BuildProfile::Debug);
    let e = executed.execute(&startup_plan(BuildProfile::Debug));
    assert_eq!(r, e);
    assert_eq!(ran.windows(), executed.windows());
    assert_eq!(ran.logging(), executed.logging());
    assert_eq!(ran.log(), executed.log());
}
