//! The game loop as a state machine: a one-time start-up sequence that gets
//! the game going through its buttons, then an unbounded cycle of frames.
//!
//! The machine decides; the program around it acts. Each command is carried
//! out there (capture, match, dispatch) and answered with one event.

use crate::decision::Action;
use crate::geometry::{Size, WindowBounds};
use crate::input::{click_plan, click_plan_spec, InputStep};
use crate::matching::{accept, accepted, Candidate, BUTTON_THRESHOLD};
use crate::templates::TemplateId;
use vstd::prelude::*;

verus! {

/// Pause between the click on the play button and the capture in which the
/// start button is looked for.
pub const MENU_SETTLE_MILLIS: u64 = 1000;

#[derive(Clone, Copy, Debug, PartialEq, Eq, Structural)]
pub enum Phase {
    /// The target window is being looked for.
    Locating,
    /// The templates are being loaded.
    Loading,
    /// The restart button is being tried.
    AwaitRestart,
    /// The restart button failed; the play button is being tried.
    AwaitPlay,
    /// The play button was clicked; the start button is being tried.
    AwaitStart,
    /// A button got the game going; the priming input is being sent.
    Priming,
    /// Frame after frame, without end.
    Running,
    /// A fatal condition ended the run.
    Aborted,
}

/// What the program reports back after carrying out a command.
#[derive(Clone, Copy, Debug, PartialEq, Eq, Structural)]
pub enum Event {
    /// The target window was found.
    WindowLocated,
    /// Every template was loaded.
    TemplatesLoaded,
    /// The button was found and clicked.
    ButtonClicked,
    /// The button was not found, or the click could not be made.
    ButtonFailed,
    /// The priming input was sent.
    Primed,
    /// A frame was captured, decided on and its action dispatched.
    FrameHandled { action: Action },
    /// The window was not found, a template could not be read, or a
    /// capture or a match failed.
    Fatal,
}

/// What the program is to do next.
#[derive(Clone, Copy, Debug, PartialEq, Eq, Structural)]
pub enum Command {
    /// Find the target window and its bounds.
    LocateWindow,
    /// Load every template.
    LoadTemplates,
    /// Match the button and click it. With `recapture` the program first
    /// waits `settle_millis` and takes a new frame; without, it uses the
    /// frame it has.
    ClickButton { button: TemplateId, settle_millis: u64, recapture: bool },
    /// Send the priming input.
    Prime,
    /// Capture a frame, decide, dispatch the action.
    HandleFrame,
    /// Stop with a diagnostic.
    Abort,
}

#[derive(Clone, Copy, Debug, PartialEq, Eq, Structural)]
pub struct Transition {
    pub next: Phase,
    pub command: Command,
}

/// The first transition of a run: the window is looked for.
pub open spec fn begin_spec() -> Transition {
    Transition { next: Phase::Locating, command: Command::LocateWindow }
}

pub open spec fn aborted() -> Transition {
    Transition { next: Phase::Aborted, command: Command::Abort }
}

/// The transition table. An event that does not answer the phase's command
/// aborts the run.
pub open spec fn step_spec(phase: Phase, event: Event) -> Transition {
    match (phase, event) {
        (Phase::Locating, Event::WindowLocated) => Transition {
            next: Phase::Loading,
            command: Command::LoadTemplates,
        },
        (Phase::Loading, Event::TemplatesLoaded) => Transition {
            next: Phase::AwaitRestart,
            command: Command::ClickButton {
                button: TemplateId::RestartButton,
                settle_millis: 0,
                recapture: true,
            },
        },
        (Phase::AwaitRestart, Event::ButtonClicked) => Transition {
            next: Phase::Priming,
            command: Command::Prime,
        },
        (Phase::AwaitRestart, Event::ButtonFailed) => Transition {
            next: Phase::AwaitPlay,
            command: Command::ClickButton {
                button: TemplateId::PlayButton,
                settle_millis: 0,
                recapture: false,
            },
        },
        (Phase::AwaitPlay, Event::ButtonClicked) => Transition {
            next: Phase::AwaitStart,
            command: Command::ClickButton {
                button: TemplateId::StartButton,
                settle_millis: MENU_SETTLE_MILLIS,
                recapture: true,
            },
        },
        (Phase::AwaitStart, Event::ButtonClicked) => Transition {
            next: Phase::Priming,
            command: Command::Prime,
        },
        (Phase::Priming, Event::Primed) => Transition {
            next: Phase::Running,
            command: Command::HandleFrame,
        },
        (Phase::Running, Event::FrameHandled { action }) => Transition {
            next: Phase::Running,
            command: Command::HandleFrame,
        },
        _ => aborted(),
    }
}

/// The transition that the first `n` of the given events lead to: the
/// phase the machine is in, and the command it issued last.
pub open spec fn transition_after(events: Seq<Event>, n: nat) -> Transition
    decreases n,
{
    if n == 0 {
        begin_spec()
    } else {
        step_spec(transition_after(events, (n - 1) as nat).next, events[n - 1])
    }
}

/// Starts a run.
pub fn begin() -> (r: Transition)
    ensures
        r == begin_spec(),
{
    Transition { next: Phase::Locating, command: Command::LocateWindow }
}

/// Takes the event that answers the last command and gives the next phase
/// and command.
pub fn step(phase: Phase, event: Event) -> (r: Transition)
    ensures
        r == step_spec(phase, event),
{
    match (phase, event) {
        (Phase::Locating, Event::WindowLocated) => Transition {
            next: Phase::Loading,
            command: Command::LoadTemplates,
        },
        (Phase::Loading, Event::TemplatesLoaded) => Transition {
            next: Phase::AwaitRestart,
            command: Command::ClickButton {
                button: TemplateId::RestartButton,
                settle_millis: 0,
                recapture: true,
            },
        },
        (Phase::AwaitRestart, Event::ButtonClicked) => Transition {
            next: Phase::Priming,
            command: Command::Prime,
        },
        (Phase::AwaitRestart, Event::ButtonFailed) => Transition {
            next: Phase::AwaitPlay,
            command: Command::ClickButton {
                button: TemplateId::PlayButton,
                settle_millis: 0,
                recapture: false,
            },
        },
        (Phase::AwaitPlay, Event::ButtonClicked) => Transition {
            next: Phase::AwaitStart,
            command: Command::ClickButton {
                button: TemplateId::StartButton,
                settle_millis: MENU_SETTLE_MILLIS,
                recapture: true,
            },
        },
        (Phase::AwaitStart, Event::ButtonClicked) => Transition {
            next: Phase::Priming,
            command: Command::Prime,
        },
        (Phase::Priming, Event::Primed) => Transition {
            next: Phase::Running,
            command: Command::HandleFrame,
        },
        (Phase::Running, Event::FrameHandled { .. }) => Transition {
            next: Phase::Running,
            command: Command::HandleFrame,
        },
        _ => Transition { next: Phase::Aborted, command: Command::Abort },
    }
}

/// Runs the machine over a recorded list of events, from the start.
pub fn replay(events: &Vec<Event>) -> (r: Transition)
    ensures
        r == transition_after(events@, events@.len()),
{
    let mut current: Transition = begin();
    let mut i: usize = 0;
    while i < events.len()
        invariant
            i <= events.len(),
            current == transition_after(events@, i as nat),
        decreases events.len() - i,
    {
        current = step(current.next, events[i]);
        i = i + 1;
    }
    current
}

/// The plan for a button, if the best alignment of its template is a hit.
pub open spec fn button_plan_spec(bounds: WindowBounds, best: Candidate, template: Size) -> Option<
    Seq<InputStep>,
> {
    match accepted(best, BUTTON_THRESHOLD) {
        Some(location) => Some(click_plan_spec(bounds.click_target_spec(location, template))),
        None => None,
    }
}

/// What to dispatch for a button: if the best alignment of its template
/// reaches the button threshold, the click at the centre of the match;
/// else `None`, the button was not found.
pub fn button_plan(bounds: &WindowBounds, best: Candidate, template: Size) -> (r: Option<
    Vec<InputStep>,
>)
    requires
        bounds.well_formed(),
    ensures
        r.is_some() <==> best.score >= BUTTON_THRESHOLD,
        match r {
            Some(plan) => Some(plan@) == button_plan_spec(*bounds, best, template),
            None => button_plan_spec(*bounds, best, template).is_none(),
        },
{
    match accept(best, BUTTON_THRESHOLD) {
        Some(location) => Some(click_plan(bounds.click_target(location, template))),
        None => None,
    }
}

/// The events of a run whose window was found and whose templates were
/// loaded.
pub open spec fn reaches_buttons(events: Seq<Event>) -> bool {
    &&& events.len() >= 2
    &&& events[0] == Event::WindowLocated
    &&& events[1] == Event::TemplatesLoaded
}

/// A run aborts before any button is looked for when the window is not
/// found or a template cannot be loaded.
pub proof fn missing_window_or_template_aborts(events: Seq<Event>)
    requires
        events.len() >= 2,
    ensures
        transition_after(events, 0).command == Command::LocateWindow,
        events[0] != Event::WindowLocated ==> transition_after(events, 1) == aborted(),
        events[0] == Event::WindowLocated ==> transition_after(events, 1).command
            == Command::LoadTemplates,
        events[0] == Event::WindowLocated && events[1] != Event::TemplatesLoaded
            ==> transition_after(events, 2) == aborted(),
        reaches_buttons(events) ==> transition_after(events, 2).command == (Command::ClickButton {
            button: TemplateId::RestartButton,
            settle_millis: 0,
            recapture: true,
        }),
{
    reveal_with_fuel(transition_after, 3);
}

/// When the restart button fails, the play button is tried next on the
/// same frame, and the start button only after the play button was
/// clicked: on a new frame, after the menu has settled. When the play
/// button fails as well, the run is aborted and the start button is never
/// asked for.
pub proof fn restart_failure_falls_back(events: Seq<Event>)
    requires
        reaches_buttons(events),
        events.len() >= 4,
        events[2] == Event::ButtonFailed,
    ensures
        transition_after(events, 3).command == (Command::ClickButton {
            button: TemplateId::PlayButton,
            settle_millis: 0,
            recapture: false,
        }),
        events[3] == Event::ButtonClicked ==> transition_after(events, 4).command == (
        Command::ClickButton {
            button: TemplateId::StartButton,
            settle_millis: MENU_SETTLE_MILLIS,
            recapture: true,
        }),
        events[3] != Event::ButtonClicked ==> forall|n: nat|
            4 <= n ==> #[trigger] transition_after(events, n) == aborted(),
{
    reveal_with_fuel(transition_after, 5);
    if events[3] != Event::ButtonClicked {
        assert(transition_after(events, 4) == aborted());
        assert forall|n: nat| 4 <= n implies #[trigger] transition_after(events, n)
            == aborted() by {
            abort_is_final(events, 4, n);
        }
    }
}

/// After an abort nothing else is ever commanded.
pub proof fn abort_is_final(events: Seq<Event>, from: nat, to: nat)
    requires
        from <= to,
        transition_after(events, from).next == Phase::Aborted,
    ensures
        transition_after(events, to) == aborted(),
    decreases to,
{
    if from == 0 {
        assert(false);
    } else if to == from {
        assert(transition_after(events, from) == step_spec(
            transition_after(events, (from - 1) as nat).next,
            events[from - 1],
        ));
    } else {
        abort_is_final(events, from, (to - 1) as nat);
    }
}

/// A start-up in which the buttons answer reaches the running phase, with
/// the priming input sent just before: directly after the restart button,
/// or after the play and the start button.
pub proof fn startup_reaches_running(events: Seq<Event>)
    requires
        reaches_buttons(events),
    ensures
        events.len() >= 4 && events[2] == Event::ButtonClicked && events[3] == Event::Primed
            ==> transition_after(events, 3).command == Command::Prime && transition_after(
            events,
            4,
        ) == (Transition { next: Phase::Running, command: Command::HandleFrame }),
        events.len() >= 6 && events[2] == Event::ButtonFailed && events[3] == Event::ButtonClicked
            && events[4] == Event::ButtonClicked && events[5] == Event::Primed
            ==> transition_after(events, 5).command == Command::Prime && transition_after(
            events,
            6,
        ) == (Transition { next: Phase::Running, command: Command::HandleFrame }),
{
    reveal_with_fuel(transition_after, 7);
}

/// The running phase does not end on any decision, `Idle` included: after
/// a handled frame the next command is the next frame.
pub proof fn running_goes_on(action: Action)
    ensures
        step_spec(Phase::Running, Event::FrameHandled { action }) == (Transition {
            next: Phase::Running,
            command: Command::HandleFrame,
        }),
{
}

/// Once running, the machine stays running for as long as frames are
/// handled, whatever was decided on each.
pub proof fn running_never_stops(events: Seq<Event>, from: nat, to: nat)
    requires
        from <= to <= events.len(),
        transition_after(events, from).next == Phase::Running,
        forall|i: int| from <= i < to ==> (#[trigger] events[i]) is FrameHandled,
    ensures
        transition_after(events, to).next == Phase::Running,
        from < to ==> transition_after(events, to).command == Command::HandleFrame,
    decreases to,
{
    if from < to {
        running_never_stops(events, from, (to - 1) as nat);
        assert(events[to - 1] is FrameHandled);
    }
}

} // verus!
