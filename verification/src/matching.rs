//! Acceptance of a template match: the best alignment found by the
//! correlation search is a hit when its score reaches the caller's threshold.

use crate::geometry::Point;
use vstd::prelude::*;

verus! {

/// Scores are correlation coefficients in millionths: this is a perfect
/// match.
pub const SCORE_UNIT: i32 = 1_000_000;

/// The bar for interface buttons, in millionths.
pub const BUTTON_THRESHOLD: i32 = 600_000;

/// The bar for in-game obstacle templates, in millionths. Tuned on its own,
/// not derived from the button threshold.
pub const OBSTACLE_THRESHOLD: i32 = 650_000;

/// The best alignment of one template over one frame: where the correlation
/// map has its global maximum, and the score there.
#[derive(Clone, Copy, Debug, PartialEq, Eq, Structural)]
pub struct Candidate {
    pub location: Point,
    pub score: i32,
}

/// The outcome of matching one template against one frame.
#[derive(Clone, Copy, Debug, PartialEq, Eq, Structural)]
pub struct MatchResult {
    pub found: bool,
    pub location: Point,
    pub score: i32,
}

/// A candidate is a hit exactly when its score reaches the threshold.
pub open spec fn accepted(best: Candidate, threshold: i32) -> Option<Point> {
    if best.score >= threshold {
        Some(best.location)
    } else {
        None
    }
}

/// The location of the best alignment if it reaches the threshold, else
/// `None`: a miss is an ordinary outcome, not an error.
pub fn accept(best: Candidate, threshold: i32) -> (r: Option<Point>)
    ensures
        r == accepted(best, threshold),
{
    if best.score >= threshold {
        Some(best.location)
    } else {
        None
    }
}

impl MatchResult {
    /// Judges a candidate against a threshold, keeping its location and
    /// score either way.
    pub fn evaluate(best: Candidate, threshold: i32) -> (r: MatchResult)
        ensures
            r.found <==> best.score >= threshold,
            r.location == best.location,
            r.score == best.score,
            r.hit_spec() == accepted(best, threshold),
    {
        MatchResult { found: best.score >= threshold, location: best.location, score: best.score }
    }

    pub open spec fn hit_spec(&self) -> Option<Point> {
        if self.found {
            Some(self.location)
        } else {
            None
        }
    }

    /// The location, if the template was found.
    pub fn hit(&self) -> (r: Option<Point>)
        ensures
            r == self.hit_spec(),
    {
        if self.found {
            Some(self.location)
        } else {
            None
        }
    }
}

/// A perfect score passes both thresholds, wherever it was found.
pub proof fn perfect_score_is_accepted(location: Point)
    ensures
        accepted(Candidate { location, score: SCORE_UNIT }, BUTTON_THRESHOLD) == Some(location),
        accepted(Candidate { location, score: SCORE_UNIT }, OBSTACLE_THRESHOLD) == Some(location),
{
}

/// Raising the threshold never turns a miss into a hit.
pub proof fn acceptance_is_monotone(best: Candidate, low: i32, high: i32)
    requires
        low <= high,
    ensures
        accepted(best, high).is_some() ==> accepted(best, low) == accepted(best, high),
{
}

} // verus!
