//! The startup script that is injected into the main window's document, and
//! the behaviour it has there.
//!
//! The window is created hidden. The script waits until the document has
//! loaded, then lets a fixed delay pass so that client-side rendering can
//! settle, and only then asks for the window to be shown. The delay is a
//! guess: nothing tells the script that the page has in fact been painted.

use vstd::prelude::*;
use vstd::string::StringExecFns;

verus! {

/// Milliseconds between the document's load-complete signal and the request
/// to show the window.
pub const SHOW_DELAY_MS: u64 = 1000;

/// The script up to the delay: a listener on the document's load-complete
/// signal that starts a timer whose callback shows the window.
pub const SCRIPT_HEAD: &'static str = "\n        <script>\n          // 监听 DOMContentLoaded 事件\n          document.addEventListener('DOMContentLoaded', () => {\n            // 延迟一段时间再显示窗口，确保 React 等框架完成渲染\n            setTimeout(() => {\n              window.__TAURI__.window.appWindow.show();\n            }, ";

/// The script after the delay.
pub const SCRIPT_TAIL: &'static str = ");\n          });\n        </script>\n      ";

/// The decimal digit that stands for `d`.
pub open spec fn digit_char(d: nat) -> char
    recommends
        d < 10,
{
    if d == 0 {
        '0'
    } else if d == 1 {
        '1'
    } else if d == 2 {
        '2'
    } else if d == 3 {
        '3'
    } else if d == 4 {
        '4'
    } else if d == 5 {
        '5'
    } else if d == 6 {
        '6'
    } else if d == 7 {
        '7'
    } else if d == 8 {
        '8'
    } else {
        '9'
    }
}

/// `n` in decimal, without leading zeros; zero is "0".
pub open spec fn decimal(n: nat) -> Seq<char>
    decreases n,
{
    if n < 10 {
        seq![digit_char(n)]
    } else {
        decimal(n / 10).push(digit_char(n % 10))
    }
}

/// The text of the script that shows the window `delay_ms` milliseconds after
/// the document has loaded.
pub open spec fn script_text(delay_ms: nat) -> Seq<char> {
    SCRIPT_HEAD@ + decimal(delay_ms) + SCRIPT_TAIL@
}

fn digit_str(d: u64) -> (s: &'static str)
    requires
        d < 10,
    ensures
        s@ == seq![digit_char(d as nat)],
{
    proof {
        reveal_strlit("0");
        reveal_strlit("1");
        reveal_strlit("2");
        reveal_strlit("3");
        reveal_strlit("4");
        reveal_strlit("5");
        reveal_strlit("6");
        reveal_strlit("7");
        reveal_strlit("8");
        reveal_strlit("9");
    }
    let s = if d == 0 {
        "0"
    } else if d == 1 {
        "1"
    } else if d == 2 {
        "2"
    } else if d == 3 {
        "3"
    } else if d == 4 {
        "4"
    } else if d == 5 {
        "5"
    } else if d == 6 {
        "6"
    } else if d == 7 {
        "7"
    } else if d == 8 {
        "8"
    } else {
        "9"
    };
    assert(s@ =~= seq![digit_char(d as nat)]);
    s
}

/// Writes `n` in decimal.
pub fn decimal_string(n: u64) -> (s: String)
    ensures
        s@ == decimal(n as nat),
{
    let mut s = String::from_str(digit_str(n % 10));
    let mut rest: u64 = n / 10;
    while rest > 0
        invariant
            rest == 0 ==> s@ == decimal(n as nat),
            rest > 0 ==> decimal(n as nat) == decimal(rest as nat) + s@,
        decreases rest,
    {
        let digit = digit_str(rest % 10);
        let ghost tail = s@;
        s = String::from_str(digit).concat(s.as_str());
        let next: u64 = rest / 10;
        proof {
            if next == 0 {
                assert(decimal(rest as nat) =~= digit@);
            } else {
                assert(decimal(rest as nat) =~= decimal(next as nat) + digit@);
                assert(decimal(next as nat) + digit@ + tail =~= decimal(next as nat) + (digit@
                    + tail));
            }
        }
        rest = next;
    }
    s
}

/// The script that shows the window `delay_ms` milliseconds after the
/// document has loaded.
pub fn delayed_show_script(delay_ms: u64) -> (s: String)
    ensures
        s@ == script_text(delay_ms as nat),
{
    let mut s = String::from_str(SCRIPT_HEAD);
    let digits = decimal_string(delay_ms);
    s.append(digits.as_str());
    s.append(SCRIPT_TAIL);
    s
}

/// The script that is injected into the main window: it waits for the
/// document to load and shows the window `SHOW_DELAY_MS` later.
pub fn initialization_script() -> (s: String)
    ensures
        s@ == script_text(SHOW_DELAY_MS as nat),
{
    delayed_show_script(SHOW_DELAY_MS)
}

/// Where the script stands in the life of one document.
#[derive(Clone, Copy, Debug, PartialEq, Eq, Structural)]
pub enum ScriptPhase {
    /// The document has not signalled that it has loaded.
    AwaitingLoad,
    /// The document has loaded and the delay is running.
    Delaying,
    /// The delay has passed and the window was asked to show.
    Shown,
}

/// What the document tells the script.
#[derive(Clone, Copy, Debug, PartialEq, Eq, Structural)]
pub enum DocumentEvent {
    /// The document's load-complete signal.
    LoadComplete,
    /// The timer that the script started has run out.
    TimerElapsed,
}

/// What the script asks of its surroundings.
#[derive(Clone, Copy, Debug, PartialEq, Eq, Structural)]
pub enum ScriptAction {
    /// Start a timer of `delay_ms` milliseconds.
    ScheduleTimer { delay_ms: u64 },
    /// Make the window visible.
    ShowWindow,
}

/// The script's reaction to one event: the phase it moves to, and what it
/// asks for, if anything. An event that the phase does not wait for changes
/// nothing.
pub open spec fn script_step_spec(phase: ScriptPhase, event: DocumentEvent) -> (
    ScriptPhase,
    Option<ScriptAction>,
) {
    match (phase, event) {
        (ScriptPhase::AwaitingLoad, DocumentEvent::LoadComplete) => (
            ScriptPhase::Delaying,
            Some(ScriptAction::ScheduleTimer { delay_ms: SHOW_DELAY_MS }),
        ),
        (ScriptPhase::Delaying, DocumentEvent::TimerElapsed) => (
            ScriptPhase::Shown,
            Some(ScriptAction::ShowWindow),
        ),
        _ => (phase, None),
    }
}

/// Lets the script react to one event.
pub fn script_step(phase: ScriptPhase, event: DocumentEvent) -> (r: (
    ScriptPhase,
    Option<ScriptAction>,
))
    ensures
        r == script_step_spec(phase, event),
{
    match phase {
        ScriptPhase::AwaitingLoad => match event {
            DocumentEvent::LoadComplete => (
                ScriptPhase::Delaying,
                Some(ScriptAction::ScheduleTimer { delay_ms: SHOW_DELAY_MS }),
            ),
            DocumentEvent::TimerElapsed => (phase, None),
        },
        ScriptPhase::Delaying => match event {
            DocumentEvent::TimerElapsed => (ScriptPhase::Shown, Some(ScriptAction::ShowWindow)),
            DocumentEvent::LoadComplete => (phase, None),
        },
        ScriptPhase::Shown => (phase, None),
    }
}

/// The phase that the script of a fresh document reaches on `events`, and
/// everything it asked for on the way, in order.
pub open spec fn script_run(events: Seq<DocumentEvent>) -> (ScriptPhase, Seq<ScriptAction>)
    decreases events.len(),
{
    if events.len() == 0 {
        (ScriptPhase::AwaitingLoad, Seq::empty())
    } else {
        let before = script_run(events.drop_last());
        let step = script_step_spec(before.0, events.last());
        match step.1 {
            Some(action) => (step.0, before.1.push(action)),
            None => (step.0, before.1),
        }
    }
}

/// What the script has asked for, by the phase it is in.
pub open spec fn actions_of_phase(phase: ScriptPhase) -> Seq<ScriptAction> {
    match phase {
        ScriptPhase::AwaitingLoad => Seq::empty(),
        ScriptPhase::Delaying => seq![ScriptAction::ScheduleTimer { delay_ms: SHOW_DELAY_MS }],
        ScriptPhase::Shown => seq![
            ScriptAction::ScheduleTimer { delay_ms: SHOW_DELAY_MS },
            ScriptAction::ShowWindow,
        ],
    }
}

/// Whatever the document sends, the script asks for nothing before the
/// document has loaded, then for one timer of `SHOW_DELAY_MS`, and for the
/// window to show only once that timer has run out after the load.
pub proof fn lemma_script_waits_for_load(events: Seq<DocumentEvent>)
    ensures
        script_run(events).1 == actions_of_phase(script_run(events).0),
        script_run(events).0 != ScriptPhase::AwaitingLoad ==> exists|i: int|
            0 <= i < events.len() && events[i] == DocumentEvent::LoadComplete,
        script_run(events).0 == ScriptPhase::Shown ==> exists|i: int, j: int|
            0 <= i < j < events.len() && events[i] == DocumentEvent::LoadComplete && events[j]
                == DocumentEvent::TimerElapsed,
    decreases events.len(),
{
    if events.len() > 0 {
        let earlier = events.drop_last();
        let last = events.len() - 1;
        lemma_script_waits_for_load(earlier);
        let before = script_run(earlier);
        let step = script_step_spec(before.0, events.last());
        assert(script_run(events).1 =~= actions_of_phase(script_run(events).0));
        if before.0 != ScriptPhase::AwaitingLoad {
            let i = choose|i: int| 0 <= i < earlier.len() && earlier[i] == DocumentEvent::LoadComplete;
            assert(events[i] == DocumentEvent::LoadComplete);
            if before.0 == ScriptPhase::Shown {
                let (a, b) = choose|a: int, b: int|
                    0 <= a < b < earlier.len() && earlier[a] == DocumentEvent::LoadComplete
                        && earlier[b] == DocumentEvent::TimerElapsed;
                assert(events[a] == DocumentEvent::LoadComplete && events[b]
                    == DocumentEvent::TimerElapsed);
            } else if script_run(events).0 == ScriptPhase::Shown {
                assert(events[last] == DocumentEvent::TimerElapsed);
                assert(0 <= i < last);
            }
        } else if script_run(events).0 != ScriptPhase::AwaitingLoad {
            assert(events[last] == DocumentEvent::LoadComplete);
        }
    }
}

} // verus!
