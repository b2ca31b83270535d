//! The decision rule of the recursive radiance estimator.
//!
//! Per primary ray the renderer alternates outside work (intersecting the
//! scene, asking the struck material to scatter — floating-point and random)
//! with a small decision: stop with the background color, stop with black, or
//! follow the scattered ray with one less bounce in the budget. The decision
//! is pure integer logic and lives here, fully specified; the caller performs
//! the outside work and feeds the outcome back as a [`BounceEvent`].

use vstd::prelude::*;

verus! {

/// The outcome of one round of outside work on a ray.
#[derive(Clone, Copy, Debug, PartialEq, Eq, Structural)]
pub enum BounceEvent {
    /// The ray left the scene without striking any shape.
    Miss,
    /// A shape was struck and its material absorbed the ray.
    Absorbed,
    /// A shape was struck and its material scattered the ray onward.
    Scattered,
}

/// What the estimator does next with one ray.
#[derive(Clone, Copy, Debug, PartialEq, Eq, Structural)]
pub enum TraceStep {
    /// The path escaped: contribute the background gradient.
    Background,
    /// The depth budget ran out or the ray was absorbed: contribute black.
    Black,
    /// Attenuate and keep tracing the scattered ray on the given budget.
    Bounce { remaining: u32 },
}

/// The estimator's decision rule. A spent budget forces black before any
/// event is looked at; otherwise a miss yields the background, absorption
/// yields black, and a scatter continues with one bounce fewer.
pub open spec fn step_spec(remaining: u32, event: BounceEvent) -> TraceStep {
    if remaining == 0 {
        TraceStep::Black
    } else {
        match event {
            BounceEvent::Miss => TraceStep::Background,
            BounceEvent::Absorbed => TraceStep::Black,
            BounceEvent::Scattered => TraceStep::Bounce { remaining: (remaining - 1) as u32 },
        }
    }
}

/// Decides what the estimator does with a ray, given the bounces still
/// allowed and what the outside work reported for it.
pub fn next_step(remaining: u32, event: BounceEvent) -> (step: TraceStep)
    ensures
        step == step_spec(remaining, event),
        remaining == 0 ==> step == TraceStep::Black,
{
    if remaining == 0 {
        TraceStep::Black
    } else {
        match event {
            BounceEvent::Miss => TraceStep::Background,
            BounceEvent::Absorbed => TraceStep::Black,
            BounceEvent::Scattered => TraceStep::Bounce { remaining: remaining - 1 },
        }
    }
}

/// How many scatter evaluations the decision rule performs along one path
/// whose rounds of outside work report `events`, starting from the given
/// budget. A material is evaluated exactly when a shape is struck while
/// budget remains — whether it then absorbs or scatters.
pub open spec fn scatter_evals(remaining: u32, events: Seq<BounceEvent>) -> nat
    decreases events.len(),
{
    if events.len() == 0 {
        0
    } else {
        let evaluated: nat = if remaining == 0 || events[0] is Miss {
            0
        } else {
            1
        };
        match step_spec(remaining, events[0]) {
            TraceStep::Bounce { remaining: rest } => evaluated + scatter_evals(
                rest,
                events.drop_first(),
            ),
            _ => evaluated,
        }
    }
}

/// Depth-bounded termination: whatever the scene and materials report, a
/// path started with budget `remaining` evaluates scatter at most
/// `remaining` times, so the estimator recurses at most that deep.
pub proof fn lemma_scatter_evals_bounded(remaining: u32, events: Seq<BounceEvent>)
    ensures
        scatter_evals(remaining, events) <= remaining,
    decreases events.len(),
{
    if events.len() > 0 {
        match step_spec(remaining, events[0]) {
            TraceStep::Bounce { remaining: rest } => {
                lemma_scatter_evals_bounded(rest, events.drop_first());
            },
            _ => {},
        }
    }
}

/// A zero depth budget yields black for every pixel: the rule never consults
/// the scene or a material once the budget is spent.
pub proof fn lemma_spent_budget_is_black(event: BounceEvent)
    ensures
        step_spec(0, event) == TraceStep::Black,
        scatter_evals(0, seq![event]) == 0,
{
}

} // verus!
