//! Startup: what the host is asked to do when the process starts, and what
//! that does to the shell.

use crate::action::{HostAction, HostActionView};
use crate::error::ShellError;
use crate::logging::LogLevel;
use crate::shell::{Shell, ShellView};
use crate::window::{
    main_window_config, main_window_config_view, window_of, MAIN_LABEL,
};
use vstd::prelude::*;

verus! {

/// How the program was built.
#[derive(Clone, Copy, Debug, PartialEq, Eq, Structural)]
pub enum BuildProfile {
    /// A build for development, which logs.
    Debug,
    /// A build for release, which does not.
    Release,
}

/// The startup actions, in order: in a debug build the logging facility is
/// attached, set to capture informational entries and above; then, in every
/// build, the main window is created.
pub open spec fn startup_plan_view(profile: BuildProfile) -> Seq<HostActionView> {
    let create = HostActionView::CreateWindow { config: main_window_config_view() };
    match profile {
        BuildProfile::Debug => seq![
            HostActionView::AttachLogging { level: LogLevel::Info },
            create,
        ],
        BuildProfile::Release => seq![create],
    }
}

/// The startup actions for a build of `profile`, in the order in which the
/// host is to take them. The host stops at the first that fails.
pub fn startup_plan(profile: BuildProfile) -> (plan: Vec<HostAction>)
    ensures
        plan.deep_view() == startup_plan_view(profile),
{
    let mut plan: Vec<HostAction> = Vec::new();
    match profile {
        BuildProfile::Debug => {
            plan.push(HostAction::AttachLogging { level: LogLevel::Info });
        },
        BuildProfile::Release => {},
    }
    plan.push(HostAction::CreateWindow { config: main_window_config() });
    assert(plan.deep_view() =~= startup_plan_view(profile));
    plan
}

/// What startup does to `shell`. In a debug build the logging facility is
/// attached first, and a failure there ends startup before any window is
/// created. Then the main window is created, hidden. Either failure is a
/// failed setup.
pub open spec fn startup(shell: ShellView, profile: BuildProfile) -> (
    ShellView,
    Result<(), ShellError>,
) {
    let attached = match profile {
        BuildProfile::Debug => shell.attach_logging(LogLevel::Info),
        BuildProfile::Release => (shell, Ok(())),
    };
    if attached.1 is Ok {
        attached.0.create_window(main_window_config_view())
    } else {
        attached
    }
}

/// Carrying out the startup plan is startup.
pub proof fn lemma_startup_plan_executes(shell: ShellView, profile: BuildProfile)
    ensures
        shell.execute(startup_plan_view(profile)) == startup(shell, profile),
{
    let plan = startup_plan_view(profile);
    let create = HostActionView::CreateWindow { config: main_window_config_view() };
    let last = seq![create];
    assert(last.drop_first() =~= Seq::empty());
    assert forall|s: ShellView| #[trigger] s.execute(last) == s.perform(create) by {
        reveal_with_fuel(ShellView::execute, 2);
    }
    match profile {
        BuildProfile::Debug => {
            let attached = shell.attach_logging(LogLevel::Info);
            assert(plan.drop_first() =~= last);
            assert(shell.perform(plan.first()) == attached);
            if attached.1 is Ok {
                assert(attached.0.execute(last) == attached.0.perform(create));
            }
        },
        BuildProfile::Release => {
            assert(plan =~= last);
        },
    }
}

/// Starts the shell: takes the startup actions of a build of `profile` on
/// `shell`, and stops at the first that fails.
pub fn run(shell: &mut Shell, profile: BuildProfile) -> (r: Result<(), ShellError>)
    ensures
        (final(shell)@, r) == startup(old(shell)@, profile),
{
    let plan = startup_plan(profile);
    proof {
        lemma_startup_plan_executes(shell@, profile);
    }
    shell.execute(&plan)
}

/// In every build the startup plan creates exactly one window: the one
/// named "main", hidden at first. Startup succeeds exactly where the shell
/// has no such window yet and, in a debug build, no logging facility; the
/// shell then has one window more, which is the only one named "main" and is
/// not on screen.
pub proof fn lemma_one_hidden_main_window(shell: ShellView, profile: BuildProfile)
    ensures
        exists|i: int|
            0 <= i < startup_plan_view(profile).len() && startup_plan_view(profile)[i]
                == (HostActionView::CreateWindow { config: main_window_config_view() })
                && forall|j: int|
                0 <= j < startup_plan_view(profile).len() && j != i ==> !(startup_plan_view(
                    profile,
                )[j] is CreateWindow),
        main_window_config_view().label == MAIN_LABEL@,
        !main_window_config_view().visible,
        startup(shell, profile).1 is Ok <==> !shell.has_window(MAIN_LABEL@) && (profile
            == BuildProfile::Debug ==> shell.logging is None),
        startup(shell, profile).1 is Ok ==> {
            let after = startup(shell, profile).0;
            &&& after.windows == shell.windows.push(window_of(main_window_config_view()))
            &&& after.has_one_window(MAIN_LABEL@)
            &&& !after.is_visible(MAIN_LABEL@)
        },
        startup(ShellView::fresh(), profile).1 is Ok,
        startup(ShellView::fresh(), profile).0.windows == seq![
            window_of(main_window_config_view()),
        ],
{
    let plan = startup_plan_view(profile);
    let at: int = match profile {
        BuildProfile::Debug => 1,
        BuildProfile::Release => 0,
    };
    assert(plan[at] == (HostActionView::CreateWindow { config: main_window_config_view() }));
    assert(!ShellView::fresh().has_window(MAIN_LABEL@));
    assert(ShellView::fresh().windows.push(window_of(main_window_config_view())) =~= seq![
        window_of(main_window_config_view()),
    ]);
    if startup(shell, profile).1 is Ok {
        let after = startup(shell, profile).0;
        let last = shell.windows.len() as int;
        assert(after.windows[last].label == MAIN_LABEL@);
        assert forall|j: int| 0 <= j < after.windows.len() && j != last implies
            after.windows[j].label != MAIN_LABEL@ by {
            assert(after.windows[j] == shell.windows[j]);
        }
        assert forall|j: int| 0 <= j < after.windows.len() implies !(after.windows[j].label
            == MAIN_LABEL@ && after.windows[j].visible) by {
            if j != last {
                assert(after.windows[j] == shell.windows[j]);
            }
        }
    }
}

/// In a debug build the logging facility is attached before the main window
/// is created, and where it cannot be attached no window is created. In a
/// release build it is never attached: the plan holds no such action, and
/// startup leaves the shell's logging as it was.
pub proof fn lemma_logging_before_window(shell: ShellView, profile: BuildProfile)
    ensures
        profile == BuildProfile::Debug ==> exists|i: int, j: int|
            0 <= i < j < startup_plan_view(profile).len() && startup_plan_view(profile)[i]
                == (HostActionView::AttachLogging { level: LogLevel::Info })
                && startup_plan_view(profile)[j] is CreateWindow,
        forall|i: int, j: int|
            0 <= i < startup_plan_view(profile).len() && 0 <= j < startup_plan_view(
                profile,
            ).len() && startup_plan_view(profile)[i] is AttachLogging && startup_plan_view(
                profile,
            )[j] is CreateWindow ==> i < j,
        profile == BuildProfile::Release ==> forall|i: int|
            0 <= i < startup_plan_view(profile).len() ==> !(startup_plan_view(
                profile,
            )[i] is AttachLogging),
        profile == BuildProfile::Release ==> startup(shell, profile).0.logging == shell.logging,
        profile == BuildProfile::Debug && startup(shell, profile).1 is Ok ==> startup(
            shell,
            profile,
        ).0.logging == Some(LogLevel::Info),
        profile == BuildProfile::Debug && shell.logging is Some ==> startup(shell, profile) == (
            shell,
            Err::<(), ShellError>(ShellError::SetupFailed),
        ),
{
    let plan = startup_plan_view(profile);
    if profile == BuildProfile::Debug {
        assert(plan[0] == (HostActionView::AttachLogging { level: LogLevel::Info }));
        assert(plan[1] is CreateWindow);
    }
}

} // verus!
