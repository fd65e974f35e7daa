//! Proved laws of the optimizer, stated over the spec-level run.

use vstd::prelude::*;

use crate::linalg::{c_div, c_fit, cm_mul_vec, cm_outer_div, cv_dot, cv_sub, RatM2, RatV2};
use crate::optimizer::{s_below_tolerance, s_run, s_step, s_update, Outcome, StepOutcome};
use crate::quadratic::{c_gradient, RatQuad};
use crate::rational::{rat_mul, Rat};

verus! {

/// Law: with an empty iteration budget the run performs no work at all
/// and hands the starting point back as exhausted.
pub proof fn lemma_zero_budget_exhausts(q: RatQuad, x: RatV2, h: RatM2, tol: Rat)
    ensures
        s_run(q, x, h, 0, 0, tol) == (x, Outcome::Exhausted),
{
}

/// Law: when the step is orthogonal to `v = y - h s` (the curvature
/// denominator `v.s` is exactly zero), the SR1 correction is skipped and
/// the approximation comes back unchanged.
pub proof fn lemma_update_skip(h: RatM2, s: RatV2, y: RatV2, hs: RatV2, v: RatV2, denom: Rat)
    requires
        cm_mul_vec(h, s) == Some(hs),
        cv_sub(y, hs) == Some(v),
        cv_dot(v, s) == Some(denom),
        denom.num == 0,
    ensures
        s_update(h, s, y) == Some(h),
{
}

/// Law: the SR1 correction term `v v^T / (v.s)` is symmetric, so a
/// symmetric approximation stays symmetric through any update that is
/// representable (and trivially through a skipped one).
pub proof fn lemma_update_preserves_symmetry(h: RatM2, s: RatV2, y: RatV2)
    requires
        h.m01 == h.m10,
    ensures
        match s_update(h, s, y) {
            Some(hn) => hn.m01 == hn.m10,
            None => true,
        },
{
    match cm_mul_vec(h, s) {
        Some(hs) => match cv_sub(y, hs) {
            Some(v) => match cv_dot(v, s) {
                Some(denom) => {
                    if denom.num != 0 {
                        assert(v.c0.num * v.c1.num == v.c1.num * v.c0.num) by (nonlinear_arith);
                        assert(v.c0.den * v.c1.den == v.c1.den * v.c0.den) by (nonlinear_arith);
                        assert(rat_mul(v.c0, v.c1) == rat_mul(v.c1, v.c0));
                        assert(c_div(c_fit(rat_mul(v.c0, v.c1)), denom) == c_div(
                            c_fit(rat_mul(v.c1, v.c0)),
                            denom,
                        ));
                        match cm_outer_div(v, denom) {
                            Some(u) => {
                                assert(u.m01 == u.m10);
                            },
                            None => {},
                        }
                    }
                },
                None => {},
            },
            None => {},
        },
        None => {},
    }
}

/// Law: a run that ends as converged ends at a point whose gradient is
/// representable and passes the tolerance test `g.g < tol^2` with a
/// positive tolerance; and the tagged iteration count lies within the
/// budget.
pub proof fn lemma_converged_point_passes_test(
    q: RatQuad,
    x: RatV2,
    h: RatM2,
    k: int,
    max: int,
    tol: Rat,
)
    requires
        0 <= k <= max,
        max <= usize::MAX as int,
        s_run(q, x, h, k, max, tol).1 is Converged,
    ensures
        ({
            let (p, outcome) = s_run(q, x, h, k, max, tol);
            match outcome {
                Outcome::Converged { iterations } => {
                    &&& match c_gradient(q, p) {
                        Some(g) => s_below_tolerance(g, tol),
                        None => false,
                    }
                    &&& k <= iterations as int
                    &&& (iterations as int) < max
                },
                _ => false,
            }
        }),
    decreases max - k,
{
    if k >= max {
    } else {
        match s_step(q, x, h, tol) {
            StepOutcome::Converged => {
                assert(s_run(q, x, h, k, max, tol) == (x, Outcome::Converged {
                    iterations: k as usize,
                }));
                match c_gradient(q, x) {
                    Some(g) => {
                        assert(s_below_tolerance(g, tol));
                    },
                    None => {
                        assert(false);
                    },
                }
            },
            StepOutcome::Advance(xn, hn) => {
                lemma_converged_point_passes_test(q, xn, hn, k + 1, max, tol);
            },
            StepOutcome::Unrepresentable => {},
        }
    }
}

} // verus!
