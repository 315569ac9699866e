//! The command that shows the main window.

use crate::action::{HostAction, HostActionView};
use crate::error::ShellError;
use crate::logging::{show_entry, show_entry_view, LogLevel};
use crate::shell::{shown, Shell, ShellView};
use crate::window::MAIN_LABEL;
use vstd::prelude::*;
use vstd::string::StringExecFns;

verus! {

/// The command's actions, in order: an informational log entry, then the main
/// window is shown.
pub open spec fn show_plan_view() -> Seq<HostActionView> {
    seq![
        HostActionView::Log { entry: show_entry_view() },
        HostActionView::ShowWindow { label: MAIN_LABEL@ },
    ]
}

/// The command's actions, in the order in which the host is to take them.
/// Where the window cannot be shown the caller is told so and decides what
/// follows.
pub fn show_plan() -> (plan: Vec<HostAction>)
    ensures
        plan.deep_view() == show_plan_view(),
{
    let mut plan: Vec<HostAction> = Vec::new();
    plan.push(HostAction::Log { entry: show_entry() });
    plan.push(HostAction::ShowWindow { label: String::from_str(MAIN_LABEL) });
    assert(plan.deep_view() =~= show_plan_view());
    plan
}

/// What the command does to `shell`: one informational entry is emitted,
/// then the main window is put on screen. Where no main window exists the
/// command fails; the entry has been emitted all the same.
pub open spec fn show_command(shell: ShellView) -> (ShellView, Result<(), ShellError>) {
    shell.emit(show_entry_view()).show_window(MAIN_LABEL@)
}

/// Carrying out the command's plan is the command.
pub proof fn lemma_show_plan_executes(shell: ShellView)
    ensures
        shell.execute(show_plan_view()) == show_command(shell),
{
    let plan = show_plan_view();
    let show = HostActionView::ShowWindow { label: MAIN_LABEL@ };
    let last = seq![show];
    let logged = shell.emit(show_entry_view());
    assert(plan.drop_first() =~= last);
    assert(last.drop_first() =~= Seq::empty());
    assert(shell.perform(plan.first()) == (logged, Ok::<(), ShellError>(())));
    assert(shell.execute(plan) == logged.execute(last));
    assert(last.first() == show);
    let result = logged.perform(show);
    if result.1 is Ok {
        assert(result.0.execute(last.drop_first()) == result);
    }
}

/// Shows the main window of `shell`, and logs that it does.
pub fn show_main_window(shell: &mut Shell) -> (r: Result<(), ShellError>)
    ensures
        (final(shell)@, r) == show_command(old(shell)@),
{
    let plan = show_plan();
    proof {
        lemma_show_plan_executes(shell@);
    }
    shell.execute(&plan)
}

/// Where the main window exists, the command succeeds, the window is on
/// screen afterwards, and the log has grown by exactly one entry, which is
/// informational. Nothing else has changed: every other window and the
/// logging facility are as they were.
pub proof fn lemma_show_makes_visible(shell: ShellView)
    requires
        shell.has_window(MAIN_LABEL@),
    ensures
        show_command(shell).1 is Ok,
        show_command(shell).0.is_visible(MAIN_LABEL@),
        show_command(shell).0.log == shell.log.push(show_entry_view()),
        show_command(shell).0.log.len() == shell.log.len() + 1,
        show_entry_view().level == LogLevel::Info,
        show_command(shell).0.logging == shell.logging,
        show_command(shell).0.windows.len() == shell.windows.len(),
        forall|i: int|
            0 <= i < shell.windows.len() ==> #[trigger] show_command(shell).0.windows[i] == if
                shell.windows[i].label == MAIN_LABEL@ {
                shown(shell.windows[i])
            } else {
                shell.windows[i]
            },
{
    let after = show_command(shell).0;
    let i = choose|i: int| 0 <= i < shell.windows.len() && shell.windows[i].label == MAIN_LABEL@;
    assert(after.windows[i].label == MAIN_LABEL@ && after.windows[i].visible);
}

/// The command can be repeated: where the main window exists, a second call
/// succeeds as the first did and leaves the windows as the first left them,
/// the main window on screen; each call has added one entry to the log.
pub proof fn lemma_show_twice(shell: ShellView)
    requires
        shell.has_window(MAIN_LABEL@),
    ensures
        show_command(shell).1 is Ok,
        show_command(shell).0.is_visible(MAIN_LABEL@),
        show_command(show_command(shell).0).1 is Ok,
        show_command(show_command(shell).0).0.is_visible(MAIN_LABEL@),
        show_command(show_command(shell).0).0.windows == show_command(shell).0.windows,
        show_command(show_command(shell).0).0.log == shell.log.push(show_entry_view()).push(
            show_entry_view(),
        ),
{
    let once = show_command(shell).0;
    let twice = show_command(once).0;
    lemma_show_makes_visible(shell);
    let i = choose|i: int| 0 <= i < shell.windows.len() && shell.windows[i].label == MAIN_LABEL@;
    assert(once.windows[i].label == MAIN_LABEL@);
    assert(once.has_window(MAIN_LABEL@));
    lemma_show_makes_visible(once);
    assert(twice.windows =~= once.windows);
}

/// The command succeeds only where the main window exists. Where it does
/// not, the command fails with `ShowFailed` and no window is touched.
pub proof fn lemma_show_fails_without_window(shell: ShellView)
    ensures
        show_command(shell).1 is Ok <==> shell.has_window(MAIN_LABEL@),
        !shell.has_window(MAIN_LABEL@) ==> show_command(shell).1 == Err::<(), ShellError>(
            ShellError::ShowFailed,
        ) && show_command(shell).0.windows == shell.windows && show_command(shell).0.logging
            == shell.logging,
{
    let logged = shell.emit(show_entry_view());
    assert(logged.windows == shell.windows);
    if shell.has_window(MAIN_LABEL@) {
        let i = choose|i: int|
            0 <= i < shell.windows.len() && shell.windows[i].label == MAIN_LABEL@;
        assert(logged.windows[i].label == MAIN_LABEL@);
    }
}

} // verus!
