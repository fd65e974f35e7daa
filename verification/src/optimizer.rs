//! The SR1 quasi-Newton minimizer.
//!
//! Per iteration `k`, starting from the identity approximation `H_0`:
//! evaluate the gradient `g_k`; stop as converged when its Euclidean norm
//! is below the tolerance (tested exactly as `g.g < tol^2` with `tol`
//! positive); otherwise take the unit step `x_{k+1} = x_k - H_k g_k`,
//! observe `s_k = x_{k+1} - x_k` and `y_k = g_{k+1} - g_k`, and correct
//! `H_{k+1} = H_k + v v^T / (v.s)` with `v = y - H s`, skipping the
//! correction when the denominator `v.s` is exactly zero. When the
//! iteration budget runs out the last point comes back as exhausted.
//!
//! The whole run is mirrored by the spec function [`s_run`], and the
//! executable loop returns exactly what the mirror computes; a result
//! can also be `NotRepresentable` when a step of the exact arithmetic
//! leaves the range of the scalars.

use vstd::prelude::*;

use crate::linalg::{
    c_fit, cm_add, cm_mul_vec, cm_outer_div, cv_add, cv_dot, cv_neg, cv_sub, spec_identity, Mat2,
    RatM2, RatV2, Vec2,
};
use crate::quadratic::{c_gradient, QuadraticObjective, RatQuad};
use crate::rational::{rat_lt, rat_mul, Rat, Rational};

verus! {

/// How a run ended: converged (gradient norm below tolerance after the
/// tagged number of iterations), exhausted (budget spent, no guarantee
/// about the returned point), or not representable (a step of the exact
/// arithmetic left the scalar range before either of the first two).
#[derive(Clone, Copy, Debug, PartialEq, Eq, Structural)]
pub enum Outcome {
    Converged { iterations: usize },
    Exhausted,
    NotRepresentable,
}

/// What one iteration does once the gradient has been checked: stop as
/// converged, advance to a new point and approximation, or fail to
/// represent an intermediate value.
pub ghost enum StepOutcome {
    Converged,
    Advance(RatV2, RatM2),
    Unrepresentable,
}

/// The checked SR1 correction of the approximation `h` from a step `s`
/// and a gradient change `y`: `h + v v^T / (v.s)` with `v = y - h s`,
/// unchanged when the curvature denominator `v.s` is exactly zero.
pub open spec fn s_update(h: RatM2, s: RatV2, y: RatV2) -> Option<RatM2> {
    match cm_mul_vec(h, s) {
        Some(hs) => match cv_sub(y, hs) {
            Some(v) => match cv_dot(v, s) {
                Some(denom) => if denom.num == 0 {
                    Some(h)
                } else {
                    match cm_outer_div(v, denom) {
                        Some(u) => cm_add(h, u),
                        None => None,
                    }
                },
                None => None,
            },
            None => None,
        },
        None => None,
    }
}

/// The part of an iteration past the convergence test: the unit step
/// `x + (-(h g))`, the new gradient, and the SR1 correction.
pub open spec fn s_advance(q: RatQuad, x: RatV2, h: RatM2, g: RatV2) -> Option<(RatV2, RatM2)> {
    match cm_mul_vec(h, g) {
        Some(hg) => match cv_neg(hg) {
            Some(d) => match cv_add(x, d) {
                Some(xn) => match c_gradient(q, xn) {
                    Some(gn) => match cv_sub(xn, x) {
                        Some(s) => match cv_sub(gn, g) {
                            Some(y) => match s_update(h, s, y) {
                                Some(hn) => Some((xn, hn)),
                                None => None,
                            },
                            None => None,
                        },
                        None => None,
                    },
                    None => None,
                },
                None => None,
            },
            None => None,
        },
        None => None,
    }
}

/// Whether the gradient test at `x` passes: the gradient is representable
/// and its squared norm is below the square of a positive tolerance
/// (equivalent to `norm < tol` since both sides are nonnegative).
pub open spec fn s_below_tolerance(g: RatV2, tol: Rat) -> bool {
    match (cv_dot(g, g), c_fit(rat_mul(tol, tol))) {
        (Some(nsq), Some(tolsq)) => tol.num > 0 && rat_lt(nsq, tolsq),
        _ => false,
    }
}

/// One full iteration at `x` with approximation `h`: gradient, convergence
/// test, then [`s_advance`]. `Unrepresentable` also covers a gradient or a
/// tolerance square that leaves the scalar range.
pub open spec fn s_step(q: RatQuad, x: RatV2, h: RatM2, tol: Rat) -> StepOutcome {
    match c_gradient(q, x) {
        Some(g) => match (cv_dot(g, g), c_fit(rat_mul(tol, tol))) {
            (Some(nsq), Some(tolsq)) => if tol.num > 0 && rat_lt(nsq, tolsq) {
                StepOutcome::Converged
            } else {
                match s_advance(q, x, h, g) {
                    Some((xn, hn)) => StepOutcome::Advance(xn, hn),
                    None => StepOutcome::Unrepresentable,
                }
            },
            _ => StepOutcome::Unrepresentable,
        },
        None => StepOutcome::Unrepresentable,
    }
}

/// The whole run from iteration `k` of a budget of `max`: the point the
/// loop ends at and the outcome. This is the exact mathematical meaning
/// of [`sr1_quasi_newton`].
pub open spec fn s_run(q: RatQuad, x: RatV2, h: RatM2, k: int, max: int, tol: Rat) -> (RatV2,
    Outcome)
    decreases max - k,
{
    if k >= max {
        (x, Outcome::Exhausted)
    } else {
        match s_step(q, x, h, tol) {
            StepOutcome::Converged => (x, Outcome::Converged { iterations: k as usize }),
            StepOutcome::Advance(xn, hn) => s_run(q, xn, hn, k + 1, max, tol),
            StepOutcome::Unrepresentable => (x, Outcome::NotRepresentable),
        }
    }
}

/// The checked SR1 correction, executable form. `Some` carries exactly
/// the matrix of [`s_update`]; in particular the approximation comes back
/// unchanged whenever the curvature denominator `v.s` is exactly zero.
pub fn sr1_update(h: &Mat2, s: &Vec2, y: &Vec2) -> (r: Option<Mat2>)
    requires
        h.wf(),
        s.wf(),
        y.wf(),
    ensures
        match r {
            Some(c) => c.wf() && s_update(h@, s@, y@) == Some(c@),
            None => s_update(h@, s@, y@) is None,
        },
{
    let hs = match h.mul_vec(s) {
        Some(hs) => hs,
        None => { return None; },
    };
    let v = match y.sub(&hs) {
        Some(v) => v,
        None => { return None; },
    };
    let denom = match v.dot(s) {
        Some(d) => d,
        None => { return None; },
    };
    if denom.is_zero() {
        Some(*h)
    } else {
        let u = match Mat2::outer_div(&v, &denom) {
            Some(u) => u,
            None => { return None; },
        };
        h.add(&u)
    }
}

/// Minimizes the quadratic objective by SR1 iteration from
/// `initial_guess`, with the identity as the starting approximation.
/// Returns exactly the point and outcome of the spec-level run
/// [`s_run`]; with an empty budget the initial point comes straight
/// back as exhausted.
pub fn sr1_quasi_newton(
    objective: &QuadraticObjective,
    initial_guess: Vec2,
    tolerance: Rational,
    max_iterations: usize,
) -> (r: (Vec2, Outcome))
    requires
        objective.wf(),
        initial_guess.wf(),
        tolerance.wf(),
    ensures
        r.0.wf(),
        (r.0@, r.1) == s_run(
            objective@,
            initial_guess@,
            spec_identity(),
            0,
            max_iterations as int,
            tolerance@,
        ),
        max_iterations == 0 ==> r.0@ == initial_guess@ && r.1 == Outcome::Exhausted,
{
    let ghost q = objective@;
    let ghost tol = tolerance@;
    let ghost max = max_iterations as int;
    let mut current_point = initial_guess;
    let mut approx = Mat2::identity();
    let mut k: usize = 0;
    while k < max_iterations
        invariant
            objective.wf(),
            tolerance.wf(),
            current_point.wf(),
            approx.wf(),
            k <= max_iterations,
            q == objective@,
            tol == tolerance@,
            max == max_iterations as int,
            s_run(q, current_point@, approx@, k as int, max, tol) == s_run(
                q,
                initial_guess@,
                spec_identity(),
                0,
                max,
                tol,
            ),
        decreases max_iterations - k,
    {
        let g = match objective.gradient(&current_point) {
            Some(g) => g,
            None => {
                proof {
                    assert(s_step(q, current_point@, approx@, tol) == StepOutcome::Unrepresentable);
                }
                return (current_point, Outcome::NotRepresentable);
            },
        };
        let nsq = match g.dot(&g) {
            Some(n) => n,
            None => {
                proof {
                    assert(s_step(q, current_point@, approx@, tol) == StepOutcome::Unrepresentable);
                }
                return (current_point, Outcome::NotRepresentable);
            },
        };
        let tolsq = match tolerance.mul(&tolerance) {
            Some(t) => t,
            None => {
                proof {
                    assert(s_step(q, current_point@, approx@, tol) == StepOutcome::Unrepresentable);
                }
                return (current_point, Outcome::NotRepresentable);
            },
        };
        if tolerance.is_positive() && nsq.lt(&tolsq) {
            proof {
                assert(s_step(q, current_point@, approx@, tol) == StepOutcome::Converged);
            }
            return (current_point, Outcome::Converged { iterations: k });
        }
        let hg = match approx.mul_vec(&g) {
            Some(hg) => hg,
            None => {
                proof {
                    assert(s_advance(q, current_point@, approx@, g@) is None);
                    assert(s_step(q, current_point@, approx@, tol) == StepOutcome::Unrepresentable);
                }
                return (current_point, Outcome::NotRepresentable);
            },
        };
        let direction = match hg.neg() {
            Some(d) => d,
            None => {
                proof {
                    assert(s_advance(q, current_point@, approx@, g@) is None);
                    assert(s_step(q, current_point@, approx@, tol) == StepOutcome::Unrepresentable);
                }
                return (current_point, Outcome::NotRepresentable);
            },
        };
        let next_point = match current_point.add(&direction) {
            Some(x) => x,
            None => {
                proof {
                    assert(s_advance(q, current_point@, approx@, g@) is None);
                    assert(s_step(q, current_point@, approx@, tol) == StepOutcome::Unrepresentable);
                }
                return (current_point, Outcome::NotRepresentable);
            },
        };
        let next_gradient = match objective.gradient(&next_point) {
            Some(gn) => gn,
            None => {
                proof {
                    assert(s_advance(q, current_point@, approx@, g@) is None);
                    assert(s_step(q, current_point@, approx@, tol) == StepOutcome::Unrepresentable);
                }
                return (current_point, Outcome::NotRepresentable);
            },
        };
        let step = match next_point.sub(&current_point) {
            Some(s) => s,
            None => {
                proof {
                    assert(s_advance(q, current_point@, approx@, g@) is None);
                    assert(s_step(q, current_point@, approx@, tol) == StepOutcome::Unrepresentable);
                }
                return (current_point, Outcome::NotRepresentable);
            },
        };
        let gradient_change = match next_gradient.sub(&g) {
            Some(y) => y,
            None => {
                proof {
                    assert(s_advance(q, current_point@, approx@, g@) is None);
                    assert(s_step(q, current_point@, approx@, tol) == StepOutcome::Unrepresentable);
                }
                return (current_point, Outcome::NotRepresentable);
            },
        };
        let next_approx = match sr1_update(&approx, &step, &gradient_change) {
            Some(h) => h,
            None => {
                proof {
                    assert(s_advance(q, current_point@, approx@, g@) is None);
                    assert(s_step(q, current_point@, approx@, tol) == StepOutcome::Unrepresentable);
                }
                return (current_point, Outcome::NotRepresentable);
            },
        };
        proof {
            assert(s_advance(q, current_point@, approx@, g@) == Some((next_point@, next_approx@)));
            assert(s_step(q, current_point@, approx@, tol) == StepOutcome::Advance(
                next_point@,
                next_approx@,
            ));
        }
        current_point = next_point;
        approx = next_approx;
        k = k + 1;
    }
    (current_point, Outcome::Exhausted)
}

} // verus!
