use lumberjack::decision::Action;
use lumberjack::game_loop::{begin, replay, step, Command, Event, Phase, Transition};
use lumberjack::templates::TemplateId;

const ABORTED: Transition = Transition { next: Phase::Aborted, command: Command::Abort };
const NEXT_FRAME: Transition = Transition { next: Phase::Running, command: Command::HandleFrame };

#[test]
fn run_begins_with_window_and_templates() {
    let t = begin();
    assert_eq!(t, Transition { next: Phase::Locating, command: Command::LocateWindow });
    let t = step(t.next, Event::WindowLocated);
    assert_eq!(t, Transition { next: Phase::Loading, command: Command::LoadTemplates });
    let t = step(t.next, Event::TemplatesLoaded);
    assert_eq!(
        t,
        Transition {
            next: Phase::AwaitRestart,
            command: Command::ClickButton {
                button: TemplateId::RestartButton,
                settle_millis: 0,
                recapture: true,
            },
        }
    );
}

#[test]
fn missing_window_aborts() {
    assert_eq!(step(Phase::Locating, Event::Fatal), ABORTED);
    assert_eq!(replay(&vec![Event::Fatal, Event::TemplatesLoaded]), ABORTED);
    assert_eq!(replay(&vec![Event::WindowLocated, Event::Fatal]), ABORTED);
}

#[test]
fn restart_success_goes_to_priming() {
    let t = step(Phase::AwaitRestart, Event::ButtonClicked);
    assert_eq!(t, Transition { next: Phase::Priming, command: Command::Prime });
    assert_eq!(step(t.next, Event::Primed), NEXT_FRAME);
}

#[test]
fn restart_failure_tries_play_then_start() {
    let t = step(Phase::AwaitRestart, Event::ButtonFailed);
    assert_eq!(
        t,
        Transition {
            next: Phase::AwaitPlay,
            command: Command::ClickButton {
                button: TemplateId::PlayButton,
                settle_millis: 0,
                recapture: false,
            },
        }
    );
    let t = step(t.next, Event::ButtonClicked);
    assert_eq!(
        t,
        Transition {
            next: Phase::AwaitStart,
            command: Command::ClickButton {
                button: TemplateId::StartButton,
                settle_millis: 1000,
                recapture: true,
            },
        }
    );
    let t = step(t.next, Event::ButtonClicked);
    assert_eq!(t, Transition { next: Phase::Priming, command: Command::Prime });
}

#[test]
fn play_failure_aborts_without_start() {
    let events = vec![
        Event::WindowLocated,
        Event::TemplatesLoaded,
        Event::ButtonFailed,
        Event::ButtonFailed,
    ];
    assert_eq!(replay(&events), ABORTED);
    let events = vec![
        Event::WindowLocated,
        Event::TemplatesLoaded,
        Event::ButtonFailed,
        Event::ButtonFailed,
        Event::ButtonClicked,
    ];
    assert_eq!(replay(&events), ABORTED);
}

#[test]
fn start_failure_aborts() {
    assert_eq!(step(Phase::AwaitStart, Event::ButtonFailed), ABORTED);
}

#[test]
fn idle_frame_keeps_running() {
    assert_eq!(step(Phase::Running, Event::FrameHandled { action: Action::Idle }), NEXT_FRAME);
    assert_eq!(step(Phase::Running, Event::FrameHandled { action: Action::LeftLeft }), NEXT_FRAME);
    let events = vec![
        Event::WindowLocated,
        Event::TemplatesLoaded,
        Event::ButtonClicked,
        Event::Primed,
        Event::FrameHandled { action: Action::Idle },
        Event::FrameHandled { action: Action::Idle },
        Event::FrameHandled { action: Action::RightSingle },
        Event::FrameHandled { action: Action::Idle },
    ];
    assert_eq!(replay(&events), NEXT_FRAME);
}

#[test]
fn fatal_event_aborts_from_every_phase() {
    for phase in [
        Phase::Locating,
        Phase::Loading,
        Phase::AwaitRestart,
        Phase::AwaitPlay,
        Phase::AwaitStart,
        Phase::Priming,
        Phase::Running,
        Phase::Aborted,
    ] {
        assert_eq!(step(phase, Event::Fatal), ABORTED);
    }
}

#[test]
fn stray_event_aborts() {
    assert_eq!(step(Phase::Running, Event::ButtonClicked), ABORTED);
    assert_eq!(step(Phase::Priming, Event::FrameHandled { action: Action::Idle }), ABORTED);
    assert_eq!(step(Phase::Aborted, Event::Primed), ABORTED);
}

#[test]
fn replay_of_nothing_is_the_beginning() {
    assert_eq!(replay(&Vec::new()), begin());
}
