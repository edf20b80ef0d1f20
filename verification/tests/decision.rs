use lumberjack::decision::{decide, decide_sides, Action, Cascade};
use lumberjack::geometry::Point;
use lumberjack::matching::Candidate;
use lumberjack::templates::TemplateId;

fn at(y: i32) -> Option<Point> {
    Some(Point { x: 10, y })
}

#[test]
fn right_obstacle_lower_presses_left() {
    let none = [None, None, None, None];
    assert_eq!(decide(&none, at(50), at(80)), Action::LeftSingle);
    assert_eq!(decide_sides(at(50), at(80)), Action::LeftSingle);
}

#[test]
fn left_obstacle_lower_presses_right() {
    let none = [None, None, None, None];
    assert_eq!(decide(&none, at(80), at(50)), Action::RightSingle);
}

#[test]
fn equal_heights_press_left() {
    assert_eq!(decide_sides(at(64), at(64)), Action::LeftSingle);
}

#[test]
fn lone_obstacles_press_the_other_key() {
    assert_eq!(decide_sides(at(5), None), Action::RightSingle);
    assert_eq!(decide_sides(None, at(5)), Action::LeftSingle);
}

#[test]
fn nothing_in_view_is_idle() {
    let none = [None, None, None, None];
    assert_eq!(decide(&none, None, None), Action::Idle);
}

#[test]
fn second_composite_wins_when_first_misses() {
    let outcomes = [None, at(1), None, None];
    assert_eq!(decide(&outcomes, None, None), Action::LeftRight);
    let outcomes = [None, at(1), at(2), at(3)];
    assert_eq!(decide(&outcomes, at(50), at(80)), Action::LeftRight);
}

#[test]
fn each_composite_has_its_action() {
    assert_eq!(decide(&[at(1), None, None, None], None, None), Action::LeftLeft);
    assert_eq!(decide(&[None, at(1), None, None], None, None), Action::LeftRight);
    assert_eq!(decide(&[None, None, at(1), None], None, None), Action::RightRight);
    assert_eq!(decide(&[None, None, None, at(1)], None, None), Action::RightLeft);
    assert_eq!(decide(&[at(1), at(1), at(1), at(1)], at(1), at(2)), Action::LeftLeft);
}

#[test]
fn cascade_asks_in_priority_order() {
    let mut state = Cascade::start();
    let mut asked = Vec::new();
    while let Some(template) = state.pending() {
        asked.push(template);
        state = state.feed(None);
    }
    assert_eq!(
        asked,
        vec![
            TemplateId::Branch1,
            TemplateId::Branch2,
            TemplateId::Branch3,
            TemplateId::Branch4,
            TemplateId::LeftBranch,
            TemplateId::RightBranch,
        ]
    );
    assert_eq!(state.decided(), Some(Action::Idle));
}

#[test]
fn cascade_stops_at_first_hit() {
    let state = Cascade::start().feed(None);
    assert_eq!(state.pending(), Some(TemplateId::Branch2));
    let state = state.feed(at(7));
    assert_eq!(state.pending(), None);
    assert_eq!(state.decided(), Some(Action::LeftRight));
    let state = state.feed(at(9));
    assert_eq!(state.decided(), Some(Action::LeftRight));
}

#[test]
fn cascade_resolves_like_decide() {
    let composites = [None, None, None, None];
    let mut all = composites.to_vec();
    all.push(at(50));
    all.push(at(80));
    let state = Cascade::resolve(&all);
    assert_eq!(state.decided(), Some(decide(&composites, at(50), at(80))));
    assert_eq!(state.decided(), Some(Action::LeftSingle));
    let partial = Cascade::resolve(&vec![None, None]);
    assert_eq!(partial.decided(), None);
    assert_eq!(partial.pending(), Some(TemplateId::Branch3));
}

#[test]
fn weak_composite_does_not_count() {
    let location = Point { x: 1, y: 1 };
    let state = Cascade::start().feed_best(Candidate { location, score: 649_999 });
    assert_eq!(state.pending(), Some(TemplateId::Branch2));
    let state = state.feed_best(Candidate { location, score: 650_000 });
    assert_eq!(state.decided(), Some(Action::LeftRight));
}
