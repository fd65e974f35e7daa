//! Loop control and call-boundary validation for callers that evaluate
//! the objective in their own arithmetic.
//!
//! The optimizer's decisions per turn are pure: stop as exhausted when
//! the budget is spent (checked before anything else, so an empty budget
//! stops at once), stop as converged when the caller reports that the
//! gradient norm is below the tolerance, and otherwise take a step. A
//! [`Driver`] holds the iteration count and makes those decisions; the
//! caller performs the arithmetic between them and reports back.

use vstd::prelude::*;

use crate::optimizer::Outcome;

verus! {

/// The decision the loop takes at the top of a turn.
#[derive(Clone, Copy, Debug, PartialEq, Eq, Structural)]
pub enum LoopDecision {
    /// Evaluate a search direction and step.
    Step,
    /// Stop and return the current point with this outcome.
    Stop(Outcome),
}

/// A rejected call-boundary input.
#[derive(Clone, Copy, Debug, PartialEq, Eq, Structural)]
pub enum InputError {
    /// The initial point does not have the dimension the objective expects.
    DimensionMismatch,
    /// The convergence tolerance is not strictly positive.
    NonPositiveTolerance,
    /// The iteration budget is zero.
    ZeroIterationBudget,
}

/// Validates the inputs of a minimization call: the point dimension must
/// match the objective's, the tolerance must be positive (the caller
/// reports the sign test of its own scalar type), and the budget must not
/// be zero. The first failing check, in that order, names the error.
pub fn validate_inputs(
    point_dimension: usize,
    expected_dimension: usize,
    tolerance_is_positive: bool,
    max_iterations: usize,
) -> (r: Result<(), InputError>)
    ensures
        r == (if point_dimension != expected_dimension {
            Result::<(), InputError>::Err(InputError::DimensionMismatch)
        } else if !tolerance_is_positive {
            Result::<(), InputError>::Err(InputError::NonPositiveTolerance)
        } else if max_iterations == 0 {
            Result::<(), InputError>::Err(InputError::ZeroIterationBudget)
        } else {
            Result::<(), InputError>::Ok(())
        }),
{
    if point_dimension != expected_dimension {
        Err(InputError::DimensionMismatch)
    } else if !tolerance_is_positive {
        Err(InputError::NonPositiveTolerance)
    } else if max_iterations == 0 {
        Err(InputError::ZeroIterationBudget)
    } else {
        Ok(())
    }
}

/// The iteration state of one minimization run: how many iterations have
/// completed, out of a fixed budget.
#[derive(Clone, Copy, Debug, PartialEq, Eq, Structural)]
pub struct Driver {
    pub max_iterations: usize,
    pub iteration: usize,
}

impl Driver {
    /// The count never passes the budget.
    pub open spec fn wf(&self) -> bool {
        self.iteration <= self.max_iterations
    }

    /// What the loop does at the top of a turn: exhausted once the budget
    /// is spent (before any gradient work), converged at the current count
    /// when the caller's gradient test passed, a step otherwise.
    pub open spec fn decision(&self, gradient_below_tolerance: bool) -> LoopDecision {
        if self.iteration >= self.max_iterations {
            LoopDecision::Stop(Outcome::Exhausted)
        } else if gradient_below_tolerance {
            LoopDecision::Stop(Outcome::Converged { iterations: self.iteration })
        } else {
            LoopDecision::Step
        }
    }

    /// Starts a run with the given budget.
    pub fn new(max_iterations: usize) -> (d: Driver)
        ensures
            d.wf(),
            d.max_iterations == max_iterations,
            d.iteration == 0,
    {
        Driver { max_iterations, iteration: 0 }
    }

    /// Takes the decision for this turn; the caller reports whether the
    /// gradient norm at the current point is below the tolerance.
    pub fn poll(&self, gradient_below_tolerance: bool) -> (r: LoopDecision)
        ensures
            r == self.decision(gradient_below_tolerance),
    {
        if self.iteration >= self.max_iterations {
            LoopDecision::Stop(Outcome::Exhausted)
        } else if gradient_below_tolerance {
            LoopDecision::Stop(Outcome::Converged { iterations: self.iteration })
        } else {
            LoopDecision::Step
        }
    }

    /// Records one completed iteration.
    pub fn advance(&mut self)
        requires
            old(self).iteration < old(self).max_iterations,
        ensures
            final(self).iteration == old(self).iteration + 1,
            final(self).max_iterations == old(self).max_iterations,
            final(self).wf(),
    {
        self.iteration = self.iteration + 1;
    }
}

/// Law: with an empty budget the first decision is already to stop as
/// exhausted, whatever the gradient test would have said.
pub proof fn lemma_zero_budget_stops(d: Driver, gradient_below_tolerance: bool)
    requires
        d.max_iterations == 0,
    ensures
        d.decision(gradient_below_tolerance) == LoopDecision::Stop(Outcome::Exhausted),
{
}

} // verus!
