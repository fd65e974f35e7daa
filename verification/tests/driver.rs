use sr1_optimizer::driver::{validate_inputs, Driver, InputError, LoopDecision};
use sr1_optimizer::optimizer::Outcome;

#[test]
fn zero_budget_stops_exhausted_at_once() {
    let d = Driver::new(0);
    assert_eq!(d.poll(true), LoopDecision::Stop(Outcome::Exhausted));
    assert_eq!(d.poll(false), LoopDecision::Stop(Outcome::Exhausted));
}

#[test]
fn decisions_follow_gradient_test_and_budget() {
    let mut d = Driver::new(3);
    assert_eq!(d.poll(true), LoopDecision::Stop(Outcome::Converged { iterations: 0 }));
    assert_eq!(d.poll(false), LoopDecision::Step);
    d.advance();
    assert_eq!(d.poll(true), LoopDecision::Stop(Outcome::Converged { iterations: 1 }));
    d.advance();
    d.advance();
    assert_eq!(d.poll(false), LoopDecision::Stop(Outcome::Exhausted));
    assert_eq!(d.poll(true), LoopDecision::Stop(Outcome::Exhausted));
}

#[test]
fn validation_accepts_good_inputs() {
    assert_eq!(validate_inputs(2, 2, true, 100), Ok(()));
}

#[test]
fn validation_rejects_dimension_mismatch() {
    assert_eq!(validate_inputs(3, 2, true, 100), Err(InputError::DimensionMismatch));
}

#[test]
fn validation_rejects_nonpositive_tolerance() {
    assert_eq!(validate_inputs(2, 2, false, 100), Err(InputError::NonPositiveTolerance));
}

#[test]
fn validation_rejects_zero_budget() {
    assert_eq!(validate_inputs(2, 2, true, 0), Err(InputError::ZeroIterationBudget));
}
