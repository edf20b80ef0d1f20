//! The obstacle decision: a priority cascade over four composite templates,
//! then a comparison of the left-side and right-side obstacles.
//!
//! The decision is a function of the match outcomes of one frame alone. It
//! is offered twice: as a function of all six outcomes, and as a small
//! machine that asks for one outcome at a time and stops asking as soon as
//! the action is known.

use crate::geometry::Point;
use crate::matching::{accept, accepted, Candidate, OBSTACLE_THRESHOLD};
use crate::templates::TemplateId;
use vstd::prelude::*;

verus! {

/// How many composite obstacle templates the cascade tests.
pub const COMPOSITE_COUNT: usize = 4;

/// A move sequence. The two-key actions press the first key twice, then the
/// second twice; the single actions press one key twice.
#[derive(Clone, Copy, Debug, PartialEq, Eq, Structural)]
pub enum Action {
    LeftLeft,
    LeftRight,
    RightRight,
    RightLeft,
    LeftSingle,
    RightSingle,
    /// Nothing recognised: no input is sent for this frame.
    Idle,
}

/// The action tied to the composite template of a given rank.
pub open spec fn composite_action(rank: int) -> Action {
    if rank == 0 {
        Action::LeftLeft
    } else if rank == 1 {
        Action::LeftRight
    } else if rank == 2 {
        Action::RightRight
    } else {
        Action::RightLeft
    }
}

/// The action when no composite template matched. With both obstacles in
/// view the lower one (larger `y`) decides, and the move goes to the other
/// side's key: left obstacle lower gives the right key, otherwise the left
/// key. A lone obstacle gives the opposite key.
pub open spec fn side_action(left: Option<Point>, right: Option<Point>) -> Action {
    match (left, right) {
        (Some(l), Some(r)) => if l.y > r.y {
            Action::RightSingle
        } else {
            Action::LeftSingle
        },
        (Some(_), None) => Action::RightSingle,
        (None, Some(_)) => Action::LeftSingle,
        (None, None) => Action::Idle,
    }
}

/// `rank` is the first composite template that matched.
pub open spec fn is_first_hit(composites: Seq<Option<Point>>, rank: int) -> bool {
    &&& 0 <= rank < composites.len()
    &&& composites[rank].is_some()
    &&& forall|j: int| 0 <= j < rank ==> (#[trigger] composites[j]).is_none()
}

/// No composite template matched.
pub open spec fn no_hit(composites: Seq<Option<Point>>) -> bool {
    forall|j: int| 0 <= j < composites.len() ==> (#[trigger] composites[j]).is_none()
}

/// The decision for one frame, from the outcomes of the four composite
/// templates in priority order and of the two side templates.
pub open spec fn decide_spec(
    composites: Seq<Option<Point>>,
    left: Option<Point>,
    right: Option<Point>,
) -> Action {
    if composites[0].is_some() {
        Action::LeftLeft
    } else if composites[1].is_some() {
        Action::LeftRight
    } else if composites[2].is_some() {
        Action::RightRight
    } else if composites[3].is_some() {
        Action::RightLeft
    } else {
        side_action(left, right)
    }
}

fn action_of_rank(rank: usize) -> (r: Action)
    requires
        rank < COMPOSITE_COUNT,
    ensures
        r == composite_action(rank as int),
{
    if rank == 0 {
        Action::LeftLeft
    } else if rank == 1 {
        Action::LeftRight
    } else if rank == 2 {
        Action::RightRight
    } else {
        Action::RightLeft
    }
}

/// Chooses between the two side obstacles.
pub fn decide_sides(left: Option<Point>, right: Option<Point>) -> (r: Action)
    ensures
        r == side_action(left, right),
{
    match (left, right) {
        (Some(l), Some(r)) => {
            if l.y > r.y {
                Action::RightSingle
            } else {
                Action::LeftSingle
            }
        },
        (Some(_), None) => Action::RightSingle,
        (None, Some(_)) => Action::LeftSingle,
        (None, None) => Action::Idle,
    }
}

/// The action for one frame: the action of the first composite template
/// that matched, whatever the later ones and the side templates did; with
/// no composite match, the choice between the side obstacles.
pub fn decide(
    composites: &[Option<Point>; 4],
    left: Option<Point>,
    right: Option<Point>,
) -> (r: Action)
    ensures
        r == decide_spec(composites@, left, right),
        forall|rank: int| is_first_hit(composites@, rank) ==> r == composite_action(rank),
        no_hit(composites@) ==> r == side_action(left, right),
{
    let mut rank: usize = 0;
    while rank < COMPOSITE_COUNT
        invariant
            rank <= COMPOSITE_COUNT,
            composites@.len() == COMPOSITE_COUNT,
            forall|j: int| 0 <= j < rank ==> (#[trigger] composites@[j]).is_none(),
        decreases COMPOSITE_COUNT - rank,
    {
        if composites[rank].is_some() {
            proof {
                first_hit_decides(composites@, left, right, rank as int);
                first_hit_is_unique(composites@, rank as int);
            }
            return action_of_rank(rank);
        }
        rank = rank + 1;
    }
    decide_sides(left, right)
}

/// The first composite template that matches decides the action, whatever
/// the templates ranked after it and the side templates did.
pub proof fn first_hit_decides(
    composites: Seq<Option<Point>>,
    left: Option<Point>,
    right: Option<Point>,
    rank: int,
)
    requires
        composites.len() == COMPOSITE_COUNT,
        is_first_hit(composites, rank),
    ensures
        decide_spec(composites, left, right) == composite_action(rank),
{
    if rank > 0 {
        assert(composites[0].is_none());
    }
    if rank > 1 {
        assert(composites[1].is_none());
    }
    if rank > 2 {
        assert(composites[2].is_none());
    }
}

/// At most one rank is the first hit.
pub proof fn first_hit_is_unique(composites: Seq<Option<Point>>, rank: int)
    requires
        is_first_hit(composites, rank),
    ensures
        forall|other: int| is_first_hit(composites, other) ==> other == rank,
{
    assert forall|other: int| is_first_hit(composites, other) implies other == rank by {
        if other < rank {
            assert(composites[other].is_none());
        }
        if rank < other {
            assert(composites[rank].is_none());
        }
    }
}

/// When no composite template matches, the decision is the comparison of
/// the two side obstacles and nothing else.
pub proof fn no_hit_falls_through(
    composites: Seq<Option<Point>>,
    left: Option<Point>,
    right: Option<Point>,
)
    requires
        composites.len() == COMPOSITE_COUNT,
        no_hit(composites),
    ensures
        decide_spec(composites, left, right) == side_action(left, right),
{
    assert(composites[0].is_none());
    assert(composites[1].is_none());
    assert(composites[2].is_none());
    assert(composites[3].is_none());
}

/// With both side obstacles in view, the one further down the frame sends
/// the move to the other key; on a tie the left key is pressed.
pub proof fn lower_obstacle_decides(left: Point, right: Point)
    ensures
        left.y > right.y ==> side_action(Some(left), Some(right)) == Action::RightSingle,
        left.y <= right.y ==> side_action(Some(left), Some(right)) == Action::LeftSingle,
{
}

/// The cascade as a machine: what it is waiting for, or what it decided.
#[derive(Clone, Copy, Debug)]
pub enum Cascade {
    /// Waiting for the outcome of the composite template of this rank.
    Composite { rank: u8 },
    /// Waiting for the outcome of the left-side template.
    Left,
    /// Waiting for the outcome of the right-side template.
    Right { left: Option<Point> },
    /// Done: no further template is tested.
    Decided { action: Action },
}

impl Cascade {
    pub open spec fn well_formed(&self) -> bool {
        match *self {
            Cascade::Composite { rank } => rank < COMPOSITE_COUNT,
            _ => true,
        }
    }

    /// The state after one more outcome. A hit on a composite template
    /// decides at once; a miss moves on to the next template; the two side
    /// outcomes are taken in turn; a decided cascade stays as it is.
    pub open spec fn feed_spec(self, outcome: Option<Point>) -> Cascade {
        match self {
            Cascade::Composite { rank } => if outcome.is_some() {
                Cascade::Decided { action: composite_action(rank as int) }
            } else if rank + 1 < COMPOSITE_COUNT {
                Cascade::Composite { rank: (rank + 1) as u8 }
            } else {
                Cascade::Left
            },
            Cascade::Left => Cascade::Right { left: outcome },
            Cascade::Right { left } => Cascade::Decided { action: side_action(left, outcome) },
            Cascade::Decided { action } => Cascade::Decided { action },
        }
    }

    /// The template whose outcome the cascade needs next, if any.
    pub open spec fn pending_spec(&self) -> Option<TemplateId> {
        match *self {
            Cascade::Composite { rank } => Some(TemplateId::composite_spec(rank as int)),
            Cascade::Left => Some(TemplateId::LeftBranch),
            Cascade::Right { left } => Some(TemplateId::RightBranch),
            Cascade::Decided { action } => None,
        }
    }

    pub open spec fn decided_spec(&self) -> Option<Action> {
        match *self {
            Cascade::Decided { action } => Some(action),
            _ => None,
        }
    }

    /// The state after the first `n` of the given outcomes, from the start.
    pub open spec fn state_after(outcomes: Seq<Option<Point>>, n: nat) -> Cascade
        decreases n,
    {
        if n == 0 {
            Cascade::Composite { rank: 0 }
        } else {
            Self::state_after(outcomes, (n - 1) as nat).feed_spec(outcomes[n - 1])
        }
    }

    /// A cascade that has seen nothing yet: it asks for the first composite
    /// template.
    pub fn start() -> (r: Cascade)
        ensures
            r == (Cascade::Composite { rank: 0 }),
            r.well_formed(),
            r == Self::state_after(Seq::empty(), 0),
    {
        Cascade::Composite { rank: 0 }
    }

    /// The template to match next; `None` exactly when the action is
    /// decided.
    pub fn pending(&self) -> (r: Option<TemplateId>)
        requires
            self.well_formed(),
        ensures
            r == self.pending_spec(),
            r.is_none() <==> self.decided_spec().is_some(),
    {
        match self {
            Cascade::Composite { rank } => Some(TemplateId::composite(*rank)),
            Cascade::Left => Some(TemplateId::LeftBranch),
            Cascade::Right { .. } => Some(TemplateId::RightBranch),
            Cascade::Decided { .. } => None,
        }
    }

    /// The action, once decided.
    pub fn decided(&self) -> (r: Option<Action>)
        ensures
            r == self.decided_spec(),
    {
        match self {
            Cascade::Decided { action } => Some(*action),
            _ => None,
        }
    }

    /// Takes the outcome of the pending template.
    pub fn feed(self, outcome: Option<Point>) -> (r: Cascade)
        requires
            self.well_formed(),
        ensures
            r == self.feed_spec(outcome),
            r.well_formed(),
    {
        match self {
            Cascade::Composite { rank } => {
                if outcome.is_some() {
                    Cascade::Decided { action: action_of_rank(rank as usize) }
                } else if rank + 1 < 4 {
                    Cascade::Composite { rank: rank + 1 }
                } else {
                    Cascade::Left
                }
            },
            Cascade::Left => Cascade::Right { left: outcome },
            Cascade::Right { left } => Cascade::Decided { action: decide_sides(left, outcome) },
            Cascade::Decided { action } => Cascade::Decided { action },
        }
    }

    /// The state after the best alignment of the pending template: the
    /// alignment counts as a hit when it reaches the obstacle threshold.
    pub open spec fn feed_best_spec(self, best: Candidate) -> Cascade {
        self.feed_spec(accepted(best, OBSTACLE_THRESHOLD))
    }

    /// Takes the best alignment of the pending template and judges it
    /// against the obstacle threshold.
    pub fn feed_best(self, best: Candidate) -> (r: Cascade)
        requires
            self.well_formed(),
        ensures
            r == self.feed_best_spec(best),
            r.well_formed(),
    {
        self.feed(accept(best, OBSTACLE_THRESHOLD))
    }

    /// Feeds a whole list of outcomes in order, from the start.
    pub fn resolve(outcomes: &Vec<Option<Point>>) -> (r: Cascade)
        ensures
            r == Self::state_after(outcomes@, outcomes@.len()),
            r.well_formed(),
    {
        let mut state: Cascade = Cascade::start();
        let mut i: usize = 0;
        while i < outcomes.len()
            invariant
                i <= outcomes.len(),
                state.well_formed(),
                state == Self::state_after(outcomes@, i as nat),
            decreases outcomes.len() - i,
        {
            state = state.feed(outcomes[i]);
            i = i + 1;
        }
        state
    }
}

/// Fed the four composite outcomes and then the two side outcomes, the
/// cascade ends decided on the action that the six outcomes call for.
pub proof fn cascade_agrees_with_decide(
    composites: Seq<Option<Point>>,
    left: Option<Point>,
    right: Option<Point>,
)
    requires
        composites.len() == COMPOSITE_COUNT,
    ensures
        Cascade::state_after(composites.push(left).push(right), 6) == (Cascade::Decided {
            action: decide_spec(composites, left, right),
        }),
{
    let all = composites.push(left).push(right);
    assert(all[0] == composites[0]);
    assert(all[1] == composites[1]);
    assert(all[2] == composites[2]);
    assert(all[3] == composites[3]);
    assert(all[4] == left);
    assert(all[5] == right);
    reveal_with_fuel(Cascade::state_after, 7);
}

/// The cascade stops asking at the first composite hit: after the outcome
/// of that rank it is decided, and it asked for exactly the templates up to
/// that rank.
pub proof fn cascade_stops_at_first_hit(outcomes: Seq<Option<Point>>, rank: int)
    requires
        rank < COMPOSITE_COUNT,
        is_first_hit(outcomes, rank),
    ensures
        Cascade::state_after(outcomes, (rank + 1) as nat) == (Cascade::Decided {
            action: composite_action(rank),
        }),
        forall|n: nat|
            n <= rank ==> (#[trigger] Cascade::state_after(outcomes, n)) == (Cascade::Composite {
                rank: n as u8,
            }),
{
    reveal_with_fuel(Cascade::state_after, 5);
    assert(rank == 0 || rank == 1 || rank == 2 || rank == 3);
    if rank > 0 {
        assert(outcomes[0].is_none());
    }
    if rank > 1 {
        assert(outcomes[1].is_none());
    }
    if rank > 2 {
        assert(outcomes[2].is_none());
    }
}

/// A composite template that stays below the obstacle threshold does not
/// count, however close it came: the next one that reaches the threshold
/// decides.
pub proof fn first_qualifying_hit_wins(rank: u8, weak: Candidate, strong: Candidate)
    requires
        rank + 1 < COMPOSITE_COUNT,
        weak.score < OBSTACLE_THRESHOLD <= strong.score,
    ensures
        (Cascade::Composite { rank }).feed_best_spec(weak).feed_best_spec(strong) == (
        Cascade::Decided { action: composite_action(rank + 1) }),
{
}

/// Once decided, the cascade ignores whatever else it is fed.
pub proof fn decided_is_final(action: Action, outcome: Option<Point>)
    ensures
        (Cascade::Decided { action }).feed_spec(outcome) == (Cascade::Decided { action }),
{
}

} // verus!
