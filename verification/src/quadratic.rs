//! The quadratic objective/gradient oracle `f(x) = 1/2 x^T A x - b^T x`
//! with symmetric `A`, together with the fixed reference instantiation
//! `A = [[3, 2], [2, 6]]`, `b = (2, -8)`.
//!
//! Both evaluations are functions of the configuration and the point
//! alone, so two calls at the same point return identical results.

use vstd::prelude::*;

use crate::linalg::{c_fit, cm_mul_vec, cv_dot, cv_sub, Mat2, RatM2, RatV2, Vec2};
use crate::rational::{rat_mul, rat_sub, Rat, Rational};

verus! {

/// Mathematical model of a quadratic objective: the matrix and the
/// linear coefficient vector.
pub ghost struct RatQuad {
    pub a: RatM2,
    pub b: RatV2,
}

/// One half, the coefficient of the quadratic term.
pub open spec fn rat_half() -> Rat {
    Rat { num: 1, den: 2 }
}

/// Checked gradient `A x - b`.
pub open spec fn c_gradient(q: RatQuad, x: RatV2) -> Option<RatV2> {
    match cm_mul_vec(q.a, x) {
        Some(ax) => cv_sub(ax, q.b),
        None => None,
    }
}

/// Checked objective value `1/2 x^T (A x) - b^T x`.
pub open spec fn c_objective(q: RatQuad, x: RatV2) -> Option<Rat> {
    match cm_mul_vec(q.a, x) {
        Some(ax) => match cv_dot(x, ax) {
            Some(xax) => match c_fit(rat_mul(xax, rat_half())) {
                Some(quad) => match cv_dot(q.b, x) {
                    Some(bx) => c_fit(rat_sub(quad, bx)),
                    None => None,
                },
                None => None,
            },
            None => None,
        },
        None => None,
    }
}

/// A quadratic objective with a symmetric matrix. Symmetry is what makes
/// the stored gradient formula `A x - b` the true gradient of the stored
/// objective, so the constructor takes the three distinct entries of `A`
/// and the type keeps `m01 == m10` as its invariant.
#[derive(Clone, Copy, Debug, PartialEq, Eq, Structural)]
pub struct QuadraticObjective {
    pub a: Mat2,
    pub b: Vec2,
}

impl View for QuadraticObjective {
    type V = RatQuad;

    open spec fn view(&self) -> RatQuad {
        RatQuad { a: self.a@, b: self.b@ }
    }
}

impl QuadraticObjective {
    pub open spec fn wf(&self) -> bool {
        self.a.wf() && self.b.wf() && self.a@.m01 == self.a@.m10
    }

    /// Builds the objective from the entries of the symmetric matrix
    /// (`a01` stands on both off-diagonal places) and the linear term.
    pub fn new(a00: Rational, a01: Rational, a11: Rational, b0: Rational, b1: Rational) -> (r:
        QuadraticObjective)
        requires
            a00.wf(),
            a01.wf(),
            a11.wf(),
            b0.wf(),
            b1.wf(),
        ensures
            r.wf(),
            r@.a == (RatM2 { m00: a00@, m01: a01@, m10: a01@, m11: a11@ }),
            r@.b == (RatV2 { c0: b0@, c1: b1@ }),
    {
        QuadraticObjective { a: Mat2::new(a00, a01, a01, a11), b: Vec2::new(b0, b1) }
    }

    /// The fixed reference instantiation: `A = [[3, 2], [2, 6]]`
    /// (symmetric positive definite) and `b = (2, -8)`.
    pub fn reference() -> (r: QuadraticObjective)
        ensures
            r.wf(),
            r@.a == (RatM2 {
                m00: Rat { num: 3, den: 1 },
                m01: Rat { num: 2, den: 1 },
                m10: Rat { num: 2, den: 1 },
                m11: Rat { num: 6, den: 1 },
            }),
            r@.b == (RatV2 { c0: Rat { num: 2, den: 1 }, c1: Rat { num: -8, den: 1 } }),
    {
        QuadraticObjective::new(
            Rational::from_integer(3),
            Rational::from_integer(2),
            Rational::from_integer(6),
            Rational::from_integer(2),
            Rational::from_integer(-8),
        )
    }

    /// Checked gradient `A x - b` at a point. The result depends on the
    /// configuration and the point alone.
    pub fn gradient(&self, x: &Vec2) -> (r: Option<Vec2>)
        requires
            self.wf(),
            x.wf(),
        ensures
            match r {
                Some(g) => g.wf() && c_gradient(self@, x@) == Some(g@),
                None => c_gradient(self@, x@) is None,
            },
    {
        let ax = match self.a.mul_vec(x) {
            Some(ax) => ax,
            None => { return None; },
        };
        ax.sub(&self.b)
    }

    /// Checked objective value `1/2 x^T A x - b^T x` at a point. The result
    /// depends on the configuration and the point alone.
    pub fn objective_function(&self, x: &Vec2) -> (r: Option<Rational>)
        requires
            self.wf(),
            x.wf(),
        ensures
            match r {
                Some(v) => v.wf() && c_objective(self@, x@) == Some(v@),
                None => c_objective(self@, x@) is None,
            },
    {
        let ax = match self.a.mul_vec(x) {
            Some(ax) => ax,
            None => { return None; },
        };
        let xax = match x.dot(&ax) {
            Some(xax) => xax,
            None => { return None; },
        };
        let half = Rational::new(1, 2);
        let quad = match xax.mul(&half) {
            Some(q) => q,
            None => { return None; },
        };
        let bx = match self.b.dot(x) {
            Some(bx) => bx,
            None => { return None; },
        };
        quad.sub(&bx)
    }
}

} // verus!
