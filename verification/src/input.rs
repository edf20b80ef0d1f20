//! Input plans: the exact sequence of simulated events and pauses that
//! realises a click or an action. The dispatcher outside this library
//! performs a plan step by step.

use crate::decision::Action;
use crate::geometry::ScreenPoint;
use vstd::prelude::*;

verus! {

/// Pause after every dispatched key or button event, so that the target
/// registers it.
pub const SETTLE_MILLIS: u64 = 25;

/// Pause between the click cycles of one click.
pub const CLICK_GAP_MILLIS: u64 = 100;

/// Pause before the priming keys are sent.
pub const PRIMING_DELAY_MILLIS: u64 = 100;

#[derive(Clone, Copy, Debug, PartialEq, Eq, Structural)]
pub enum Key {
    LeftArrow,
    RightArrow,
}

/// One simulated event. Button events are of the left mouse button.
#[derive(Clone, Copy, Debug, PartialEq, Eq, Structural)]
pub enum InputEvent {
    MouseMove { x: u64, y: u64 },
    ButtonPress,
    ButtonRelease,
    KeyPress { key: Key },
    KeyRelease { key: Key },
}

/// One step of a plan.
#[derive(Clone, Copy, Debug, PartialEq, Eq, Structural)]
pub enum InputStep {
    /// Dispatch the event; if that fails, the plan fails.
    Require { event: InputEvent },
    /// Dispatch the event; a failure is reported and the plan goes on.
    Attempt { event: InputEvent },
    /// Block for this many milliseconds.
    Wait { millis: u64 },
}

/// A best-effort event followed by the settle pause.
pub open spec fn sent(event: InputEvent) -> Seq<InputStep> {
    seq![InputStep::Attempt { event }, InputStep::Wait { millis: SETTLE_MILLIS }]
}

/// One key stroke: press, settle, release, settle.
pub open spec fn stroke(key: Key) -> Seq<InputStep> {
    sent(InputEvent::KeyPress { key }) + sent(InputEvent::KeyRelease { key })
}

/// The strokes of a list of keys, one after the other.
pub open spec fn key_plan_spec(keys: Seq<Key>) -> Seq<InputStep>
    decreases keys.len(),
{
    if keys.len() == 0 {
        Seq::empty()
    } else {
        key_plan_spec(keys.drop_last()) + stroke(keys.last())
    }
}

/// The keys of an action, in the order they are struck.
pub open spec fn action_keys_spec(action: Action) -> Seq<Key> {
    match action {
        Action::LeftLeft => seq![Key::LeftArrow, Key::LeftArrow, Key::LeftArrow, Key::LeftArrow],
        Action::LeftRight => seq![Key::LeftArrow, Key::LeftArrow, Key::RightArrow, Key::RightArrow],
        Action::RightRight => seq![
            Key::RightArrow,
            Key::RightArrow,
            Key::RightArrow,
            Key::RightArrow,
        ],
        Action::RightLeft => seq![Key::RightArrow, Key::RightArrow, Key::LeftArrow, Key::LeftArrow],
        Action::LeftSingle => seq![Key::LeftArrow, Key::LeftArrow],
        Action::RightSingle => seq![Key::RightArrow, Key::RightArrow],
        Action::Idle => Seq::empty(),
    }
}

pub open spec fn action_plan_spec(action: Action) -> Seq<InputStep> {
    key_plan_spec(action_keys_spec(action))
}

/// One click cycle of the left button: press, settle, release, settle.
pub open spec fn click_cycle() -> Seq<InputStep> {
    sent(InputEvent::ButtonPress) + sent(InputEvent::ButtonRelease)
}

/// A click: the pointer is moved to the target, which must succeed, then
/// three click cycles follow with a gap between them.
pub open spec fn click_plan_spec(target: ScreenPoint) -> Seq<InputStep> {
    seq![InputStep::Require { event: InputEvent::MouseMove { x: target.x, y: target.y } }]
        + click_cycle() + seq![InputStep::Wait { millis: CLICK_GAP_MILLIS }] + click_cycle()
        + seq![InputStep::Wait { millis: CLICK_GAP_MILLIS }] + click_cycle()
}

/// The priming input: after a short delay, the left key is pressed twice
/// (pressed only, not released).
pub open spec fn priming_plan_spec() -> Seq<InputStep> {
    seq![InputStep::Wait { millis: PRIMING_DELAY_MILLIS }] + sent(
        InputEvent::KeyPress { key: Key::LeftArrow },
    ) + sent(InputEvent::KeyPress { key: Key::LeftArrow })
}

fn push_sent(plan: &mut Vec<InputStep>, event: InputEvent)
    ensures
        final(plan)@ == old(plan)@ + sent(event),
{
    plan.push(InputStep::Attempt { event });
    plan.push(InputStep::Wait { millis: SETTLE_MILLIS });
    assert(plan@ =~= old(plan)@ + sent(event));
}

fn push_click_cycle(plan: &mut Vec<InputStep>)
    ensures
        final(plan)@ == old(plan)@ + click_cycle(),
{
    push_sent(plan, InputEvent::ButtonPress);
    push_sent(plan, InputEvent::ButtonRelease);
    assert(plan@ =~= old(plan)@ + click_cycle());
}

/// The keys that an action strikes.
pub fn action_keys(action: Action) -> (r: Vec<Key>)
    ensures
        r@ == action_keys_spec(action),
{
    let keys: Vec<Key> = match action {
        Action::LeftLeft => vec![Key::LeftArrow, Key::LeftArrow, Key::LeftArrow, Key::LeftArrow],
        Action::LeftRight => vec![Key::LeftArrow, Key::LeftArrow, Key::RightArrow, Key::RightArrow],
        Action::RightRight => vec![
            Key::RightArrow,
            Key::RightArrow,
            Key::RightArrow,
            Key::RightArrow,
        ],
        Action::RightLeft => vec![Key::RightArrow, Key::RightArrow, Key::LeftArrow, Key::LeftArrow],
        Action::LeftSingle => vec![Key::LeftArrow, Key::LeftArrow],
        Action::RightSingle => vec![Key::RightArrow, Key::RightArrow],
        Action::Idle => Vec::new(),
    };
    assert(keys@ =~= action_keys_spec(action));
    keys
}

/// The plan that strikes each key of the list in turn.
pub fn key_plan(keys: &Vec<Key>) -> (r: Vec<InputStep>)
    ensures
        r@ == key_plan_spec(keys@),
        r@.len() == 4 * keys@.len(),
{
    let mut plan: Vec<InputStep> = Vec::new();
    let mut i: usize = 0;
    while i < keys.len()
        invariant
            i <= keys.len(),
            plan@ == key_plan_spec(keys@.take(i as int)),
            plan@.len() == 4 * i,
        decreases keys.len() - i,
    {
        let key: Key = keys[i];
        let ghost before = plan@;
        push_sent(&mut plan, InputEvent::KeyPress { key });
        push_sent(&mut plan, InputEvent::KeyRelease { key });
        proof {
            let next = keys@.take(i as int + 1);
            assert(next.drop_last() =~= keys@.take(i as int));
            assert(next.last() == key);
            assert(plan@ =~= before + stroke(key));
        }
        i = i + 1;
    }
    proof {
        assert(keys@.take(i as int) =~= keys@);
    }
    plan
}

/// The plan of an action: its keys struck in order; empty for `Idle`.
pub fn action_plan(action: Action) -> (r: Vec<InputStep>)
    ensures
        r@ == action_plan_spec(action),
        action == Action::Idle <==> r@.len() == 0,
{
    let keys: Vec<Key> = action_keys(action);
    key_plan(&keys)
}

/// The plan of a click at `target`.
pub fn click_plan(target: ScreenPoint) -> (r: Vec<InputStep>)
    ensures
        r@ == click_plan_spec(target),
{
    let mut plan: Vec<InputStep> = Vec::new();
    plan.push(InputStep::Require { event: InputEvent::MouseMove { x: target.x, y: target.y } });
    push_click_cycle(&mut plan);
    plan.push(InputStep::Wait { millis: CLICK_GAP_MILLIS });
    push_click_cycle(&mut plan);
    plan.push(InputStep::Wait { millis: CLICK_GAP_MILLIS });
    push_click_cycle(&mut plan);
    assert(plan@ =~= click_plan_spec(target));
    plan
}

/// The plan of the priming input sent once the game has started.
pub fn priming_plan() -> (r: Vec<InputStep>)
    ensures
        r@ == priming_plan_spec(),
{
    let mut plan: Vec<InputStep> = Vec::new();
    plan.push(InputStep::Wait { millis: PRIMING_DELAY_MILLIS });
    push_sent(&mut plan, InputEvent::KeyPress { key: Key::LeftArrow });
    push_sent(&mut plan, InputEvent::KeyPress { key: Key::LeftArrow });
    assert(plan@ =~= priming_plan_spec());
    plan
}

/// A key plan strikes every key: four steps per key, the press of key `i`
/// at step `4 i` and its release at step `4 i + 2`, each followed by the
/// settle pause.
pub proof fn key_plan_layout(keys: Seq<Key>)
    ensures
        key_plan_spec(keys).len() == 4 * keys.len(),
        forall|i: int|
            0 <= i < keys.len() ==> {
                &&& key_plan_spec(keys)[4 * i] == (InputStep::Attempt {
                    event: InputEvent::KeyPress { key: #[trigger] keys[i] },
                })
                &&& key_plan_spec(keys)[4 * i + 1] == (InputStep::Wait { millis: SETTLE_MILLIS })
                &&& key_plan_spec(keys)[4 * i + 2] == (InputStep::Attempt {
                    event: InputEvent::KeyRelease { key: keys[i] },
                })
                &&& key_plan_spec(keys)[4 * i + 3] == (InputStep::Wait { millis: SETTLE_MILLIS })
            },
    decreases keys.len(),
{
    if keys.len() > 0 {
        key_plan_layout(keys.drop_last());
        let head = key_plan_spec(keys.drop_last());
        let tail = stroke(keys.last());
        assert(tail.len() == 4);
        assert forall|i: int| 0 <= i < keys.len() implies {
            &&& key_plan_spec(keys)[4 * i] == (InputStep::Attempt {
                event: InputEvent::KeyPress { key: #[trigger] keys[i] },
            })
            &&& key_plan_spec(keys)[4 * i + 1] == (InputStep::Wait { millis: SETTLE_MILLIS })
            &&& key_plan_spec(keys)[4 * i + 2] == (InputStep::Attempt {
                event: InputEvent::KeyRelease { key: keys[i] },
            })
            &&& key_plan_spec(keys)[4 * i + 3] == (InputStep::Wait { millis: SETTLE_MILLIS })
        } by {
            if i < keys.len() - 1 {
                assert(keys.drop_last()[i] == keys[i]);
            } else {
                assert(keys[i] == keys.last());
                assert(tail[0] == (InputStep::Attempt {
                    event: InputEvent::KeyPress { key: keys[i] },
                }));
                assert(tail[2] == (InputStep::Attempt {
                    event: InputEvent::KeyRelease { key: keys[i] },
                }));
            }
        }
    }
}

/// An action sends no input exactly when it is `Idle`.
pub proof fn only_idle_is_silent(action: Action)
    ensures
        action_plan_spec(action).len() == 4 * action_keys_spec(action).len(),
        action == Action::Idle <==> action_plan_spec(action).len() == 0,
{
    key_plan_layout(action_keys_spec(action));
}

/// A click is fifteen steps: the pointer move, then three click cycles of
/// four steps each with a gap after the first and the second.
pub proof fn click_plan_layout(target: ScreenPoint)
    ensures
        click_plan_spec(target).len() == 15,
        click_plan_spec(target)[0] == (InputStep::Require {
            event: InputEvent::MouseMove { x: target.x, y: target.y },
        }),
        click_plan_spec(target)[1] == (InputStep::Attempt { event: InputEvent::ButtonPress }),
        click_plan_spec(target)[6] == (InputStep::Attempt { event: InputEvent::ButtonPress }),
        click_plan_spec(target)[11] == (InputStep::Attempt { event: InputEvent::ButtonPress }),
        click_plan_spec(target)[5] == (InputStep::Wait { millis: CLICK_GAP_MILLIS }),
        click_plan_spec(target)[10] == (InputStep::Wait { millis: CLICK_GAP_MILLIS }),
{
}

} // verus!
