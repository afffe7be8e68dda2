//! Control of the transport evaluator: the loop that follows a ray
//! through successive scatter events.
//!
//! One bounce of a path does three things: it queries the scene for the
//! closest hit, asks the struck material whether the ray scatters, and
//! then decides how the path goes on. The first two work on real-valued
//! geometry and live with the renderer; the decision is a pure function
//! of the remaining bounce budget and of what the bounce found, and it
//! is made here. The budget strictly decreases along a path, so a trace
//! always terminates.

use vstd::prelude::*;

verus! {

/// What one bounce of a path found.
#[derive(Copy, Clone, Debug, PartialEq, Eq, Structural)]
pub enum BounceOutcome {
    /// The ray left the scene without striking a primitive.
    Missed,
    /// A primitive was struck and its material absorbed the ray.
    Absorbed,
    /// A primitive was struck and its material scattered the ray.
    Scattered,
}

/// What the transport loop does after a bounce.
#[derive(Copy, Clone, Debug, PartialEq, Eq, Structural)]
pub enum TraceStep {
    /// The path ends on the background gradient.
    EmitBackground,
    /// The path ends black: its bounce budget is exhausted, or the ray
    /// was absorbed.
    EmitBlack,
    /// The path follows the scattered ray, with this budget left.
    ContinuePath(i32),
}

/// The decision of the transport loop, given the remaining bounce
/// budget and what the bounce found. A path whose budget is used up is
/// black whatever the bounce found; a miss ends on the background
/// gradient, the only light source; an absorbed ray ends black; a
/// scattered ray is followed with one bounce less to spend.
pub open spec fn spec_trace_step(depth: i32, outcome: BounceOutcome) -> TraceStep {
    if depth <= 0 {
        TraceStep::EmitBlack
    } else {
        match outcome {
            BounceOutcome::Missed => TraceStep::EmitBackground,
            BounceOutcome::Absorbed => TraceStep::EmitBlack,
            BounceOutcome::Scattered => TraceStep::ContinuePath((depth - 1) as i32),
        }
    }
}

/// True when a path has no bounces left to spend, so the scene need not
/// even be queried: the path is black.
pub fn bounce_budget_exhausted(depth: i32) -> (r: bool)
    ensures
        r == (depth <= 0),
{
    depth <= 0
}

/// One decision of the transport loop.
pub fn trace_step(depth: i32, outcome: BounceOutcome) -> (r: TraceStep)
    ensures
        r == spec_trace_step(depth, outcome),
        depth <= 0 ==> r == TraceStep::EmitBlack,
        r matches TraceStep::ContinuePath(left) ==> left == depth - 1,
{
    if depth <= 0 {
        TraceStep::EmitBlack
    } else {
        match outcome {
            BounceOutcome::Missed => TraceStep::EmitBackground,
            BounceOutcome::Absorbed => TraceStep::EmitBlack,
            BounceOutcome::Scattered => TraceStep::ContinuePath(depth - 1),
        }
    }
}

/// How many scatter events a path starting with budget `depth` follows
/// before it stops, when its successive bounces find `outcomes`.
pub open spec fn spec_bounces_used(depth: i32, outcomes: Seq<BounceOutcome>) -> int
    decreases outcomes.len(),
{
    if depth <= 0 || outcomes.len() == 0 {
        0
    } else if outcomes[0] is Scattered {
        1 + spec_bounces_used((depth - 1) as i32, outcomes.drop_first())
    } else {
        0
    }
}

/// The bounce budget bounds every path: whatever its bounces find, a
/// path starting with budget `depth` follows at most `depth` scatter
/// events, and never more than there are bounces. The budget carried
/// through `trace_step` strictly decreases, so the transport loop
/// terminates.
pub proof fn lemma_trace_bounded(depth: i32, outcomes: Seq<BounceOutcome>)
    ensures
        0 <= spec_bounces_used(depth, outcomes),
        spec_bounces_used(depth, outcomes) <= outcomes.len(),
        depth > 0 ==> spec_bounces_used(depth, outcomes) <= depth,
        depth <= 0 ==> spec_bounces_used(depth, outcomes) == 0,
    decreases outcomes.len(),
{
    if depth > 0 && outcomes.len() > 0 && outcomes[0] is Scattered {
        lemma_trace_bounded((depth - 1) as i32, outcomes.drop_first());
    }
}

} // verus!
