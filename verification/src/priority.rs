//! The priority scorer: from a package's place in the background recency
//! order and its configured priority class to the kernel reclaim score.
//! A higher score makes the process more eligible for reclaim.

use crate::config::OomPriority;
use vstd::prelude::*;

verus! {

/// Score of the most recently backgrounded package of normal priority.
pub const BASE_SCORE: i32 = 200;

/// What each further place in the recency order adds.
pub const SCORE_STEP: i32 = 50;

/// What one unit of the priority factor adds.
pub const PRIORITY_WEIGHT: i32 = 100;

/// No score is greater than this.
pub const MAX_SCORE: i32 = 900;

/// `-2` for high priority, `2` for low priority, `0` otherwise.
pub open spec fn spec_priority_factor(priority: OomPriority) -> int {
    match priority {
        OomPriority::OomHigh => -2,
        OomPriority::OomLow => 2,
        _ => 0,
    }
}

/// The score before the cap is applied.
pub open spec fn raw_score(position: nat, priority: OomPriority) -> int {
    BASE_SCORE + position * SCORE_STEP + spec_priority_factor(priority) * PRIORITY_WEIGHT
}

/// The reclaim score: the raw score, capped at `MAX_SCORE`.
pub open spec fn spec_priority_score(position: nat, priority: OomPriority) -> int {
    if raw_score(position, priority) < MAX_SCORE {
        raw_score(position, priority)
    } else {
        MAX_SCORE as int
    }
}

pub fn priority_factor(priority: OomPriority) -> (factor: i32)
    ensures
        factor == spec_priority_factor(priority),
{
    match priority {
        OomPriority::OomHigh => -2,
        OomPriority::OomLow => 2,
        _ => 0,
    }
}

/// Computes the reclaim score of the package at `position` (0 is the most
/// recently backgrounded) with the given priority class.
pub fn priority_score(position: usize, priority: OomPriority) -> (score: i32)
    ensures
        score == spec_priority_score(position as nat, priority),
        0 <= score <= MAX_SCORE,
{
    let factor: i32 = priority_factor(priority);
    // From place 18 on even a high-priority package has reached the cap.
    if position >= 18 {
        MAX_SCORE
    } else {
        let place: i32 = position as i32;
        let raw: i32 = BASE_SCORE + place * SCORE_STEP + factor * PRIORITY_WEIGHT;
        if raw < MAX_SCORE {
            raw
        } else {
            MAX_SCORE
        }
    }
}

/// A score is never negative and never above the cap.
pub proof fn lemma_score_bounded(position: nat, priority: OomPriority)
    ensures
        0 <= spec_priority_score(position, priority) <= MAX_SCORE,
{
}

/// For a fixed priority class the score does not decrease as the package
/// moves back in the recency order.
pub proof fn lemma_score_monotonic_in_position(earlier: nat, later: nat, priority: OomPriority)
    requires
        earlier <= later,
    ensures
        spec_priority_score(earlier, priority) <= spec_priority_score(later, priority),
{
    assert(earlier * SCORE_STEP <= later * SCORE_STEP) by (nonlinear_arith)
        requires
            earlier <= later,
            SCORE_STEP == 50,
    ;
}

/// For a fixed position, high priority scores no more than normal, and
/// normal no more than low. Each inequality is strict exactly while the
/// lesser of the two scores is below the cap: once both have reached it they
/// are equal.
pub proof fn lemma_score_ordered_by_priority(position: nat)
    ensures
        spec_priority_score(position, OomPriority::OomHigh) <= spec_priority_score(
            position,
            OomPriority::OomNormal,
        ),
        spec_priority_score(position, OomPriority::OomNormal) <= spec_priority_score(
            position,
            OomPriority::OomLow,
        ),
        spec_priority_score(position, OomPriority::OomHigh) < MAX_SCORE <==> spec_priority_score(
            position,
            OomPriority::OomHigh,
        ) < spec_priority_score(position, OomPriority::OomNormal),
        spec_priority_score(position, OomPriority::OomNormal) < MAX_SCORE
            <==> spec_priority_score(position, OomPriority::OomNormal) < spec_priority_score(
            position,
            OomPriority::OomLow,
        ),
        spec_priority_score(position, OomPriority::OomUnspecified) == spec_priority_score(
            position,
            OomPriority::OomNormal,
        ),
{
}

} // verus!
