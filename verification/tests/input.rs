use lumberjack::decision::Action;
use lumberjack::game_loop::button_plan;
use lumberjack::geometry::{Point, ScreenPoint, Size, WindowBounds};
use lumberjack::input::{
    action_keys, action_plan, click_plan, key_plan, priming_plan, InputEvent, InputStep, Key,
};
use lumberjack::matching::Candidate;

fn attempt(event: InputEvent) -> InputStep {
    InputStep::Attempt { event }
}

fn settle() -> InputStep {
    InputStep::Wait { millis: 25 }
}

fn stroke(key: Key) -> Vec<InputStep> {
    vec![
        attempt(InputEvent::KeyPress { key }),
        settle(),
        attempt(InputEvent::KeyRelease { key }),
        settle(),
    ]
}

#[test]
fn action_keys_are_fixed() {
    let (l, r) = (Key::LeftArrow, Key::RightArrow);
    assert_eq!(action_keys(Action::LeftLeft), vec![l, l, l, l]);
    assert_eq!(action_keys(Action::LeftRight), vec![l, l, r, r]);
    assert_eq!(action_keys(Action::RightRight), vec![r, r, r, r]);
    assert_eq!(action_keys(Action::RightLeft), vec![r, r, l, l]);
    assert_eq!(action_keys(Action::LeftSingle), vec![l, l]);
    assert_eq!(action_keys(Action::RightSingle), vec![r, r]);
    assert_eq!(action_keys(Action::Idle), Vec::<Key>::new());
}

#[test]
fn single_action_is_two_strokes() {
    let mut expected = stroke(Key::RightArrow);
    expected.extend(stroke(Key::RightArrow));
    assert_eq!(action_plan(Action::RightSingle), expected);
}

#[test]
fn two_key_action_is_four_strokes() {
    let mut expected = stroke(Key::RightArrow);
    expected.extend(stroke(Key::RightArrow));
    expected.extend(stroke(Key::LeftArrow));
    expected.extend(stroke(Key::LeftArrow));
    let plan = action_plan(Action::RightLeft);
    assert_eq!(plan.len(), 16);
    assert_eq!(plan, expected);
}

#[test]
fn idle_sends_nothing() {
    assert_eq!(action_plan(Action::Idle), Vec::<InputStep>::new());
    assert_eq!(key_plan(&Vec::new()), Vec::<InputStep>::new());
}

#[test]
fn click_is_a_move_and_three_cycles() {
    let cycle = vec![
        attempt(InputEvent::ButtonPress),
        settle(),
        attempt(InputEvent::ButtonRelease),
        settle(),
    ];
    let gap = InputStep::Wait { millis: 100 };
    let mut expected = vec![InputStep::Require { event: InputEvent::MouseMove { x: 132, y: 237 } }];
    expected.extend(cycle.clone());
    expected.push(gap);
    expected.extend(cycle.clone());
    expected.push(gap);
    expected.extend(cycle);
    assert_eq!(click_plan(ScreenPoint { x: 132, y: 237 }), expected);
}

#[test]
fn priming_presses_left_twice() {
    let press = attempt(InputEvent::KeyPress { key: Key::LeftArrow });
    assert_eq!(
        priming_plan(),
        vec![InputStep::Wait { millis: 100 }, press, settle(), press, settle()]
    );
}

#[test]
fn button_plan_needs_the_button_threshold() {
    let bounds = WindowBounds::new(100, 200, 400, 600);
    let size = Size { width: 50, height: 30 };
    let location = Point { x: 41, y: 60 };
    let plan = button_plan(&bounds, Candidate { location, score: 600_000 }, size);
    assert_eq!(plan, Some(click_plan(ScreenPoint { x: 132, y: 237 })));
    assert_eq!(button_plan(&bounds, Candidate { location, score: 599_999 }, size), None);
}
