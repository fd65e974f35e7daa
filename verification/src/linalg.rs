//! Two-dimensional vectors and 2x2 matrices of exact rational scalars,
//! sized for the reference quadratic objective.
//!
//! Each operation mirrors a spec-level formula over ghost pairs. The
//! `Option` results follow one rule: `Some` carries the exact value and
//! `None` means some entry of the exact result left `i64` range.

use vstd::prelude::*;

use crate::rational::{rat_add, rat_canon, rat_div, rat_fits, rat_mul, rat_neg, rat_sub, Rat, Rational};

verus! {

/// Mathematical model of a two-dimensional vector.
pub ghost struct RatV2 {
    pub c0: Rat,
    pub c1: Rat,
}

/// Mathematical model of a 2x2 matrix.
pub ghost struct RatM2 {
    pub m00: Rat,
    pub m01: Rat,
    pub m10: Rat,
    pub m11: Rat,
}

/// The canonical form of the exact pair when it is representable,
/// `None` otherwise.
pub open spec fn c_fit(r: Rat) -> Option<Rat> {
    let canon = rat_canon(r);
    if rat_fits(canon) {
        Some(canon)
    } else {
        None
    }
}

/// Checked sum of two checked scalars.
pub open spec fn c_add(a: Option<Rat>, b: Option<Rat>) -> Option<Rat> {
    match (a, b) {
        (Some(x), Some(y)) => c_fit(rat_add(x, y)),
        _ => None,
    }
}

/// Checked quotient of a checked scalar by a divisor; `None` on a zero divisor.
pub open spec fn c_div(a: Option<Rat>, b: Rat) -> Option<Rat> {
    match a {
        Some(x) => if b.num == 0 {
            None
        } else {
            c_fit(rat_div(x, b))
        },
        None => None,
    }
}

/// Checked component-wise vector sum.
pub open spec fn cv_add(a: RatV2, b: RatV2) -> Option<RatV2> {
    match (c_fit(rat_add(a.c0, b.c0)), c_fit(rat_add(a.c1, b.c1))) {
        (Some(x), Some(y)) => Some(RatV2 { c0: x, c1: y }),
        _ => None,
    }
}

/// Checked component-wise vector difference.
pub open spec fn cv_sub(a: RatV2, b: RatV2) -> Option<RatV2> {
    match (c_fit(rat_sub(a.c0, b.c0)), c_fit(rat_sub(a.c1, b.c1))) {
        (Some(x), Some(y)) => Some(RatV2 { c0: x, c1: y }),
        _ => None,
    }
}

/// Checked component-wise vector negation.
pub open spec fn cv_neg(a: RatV2) -> Option<RatV2> {
    match (c_fit(rat_neg(a.c0)), c_fit(rat_neg(a.c1))) {
        (Some(x), Some(y)) => Some(RatV2 { c0: x, c1: y }),
        _ => None,
    }
}

/// Checked dot product: both pairwise products, then their sum.
pub open spec fn cv_dot(a: RatV2, b: RatV2) -> Option<Rat> {
    c_add(c_fit(rat_mul(a.c0, b.c0)), c_fit(rat_mul(a.c1, b.c1)))
}

/// Checked matrix-vector product, row by row.
pub open spec fn cm_mul_vec(m: RatM2, v: RatV2) -> Option<RatV2> {
    match (
        c_add(c_fit(rat_mul(m.m00, v.c0)), c_fit(rat_mul(m.m01, v.c1))),
        c_add(c_fit(rat_mul(m.m10, v.c0)), c_fit(rat_mul(m.m11, v.c1))),
    ) {
        (Some(x), Some(y)) => Some(RatV2 { c0: x, c1: y }),
        _ => None,
    }
}

/// Checked entry-wise matrix sum.
pub open spec fn cm_add(a: RatM2, b: RatM2) -> Option<RatM2> {
    match (
        c_fit(rat_add(a.m00, b.m00)),
        c_fit(rat_add(a.m01, b.m01)),
        c_fit(rat_add(a.m10, b.m10)),
        c_fit(rat_add(a.m11, b.m11)),
    ) {
        (Some(e00), Some(e01), Some(e10), Some(e11)) =>
            Some(RatM2 { m00: e00, m01: e01, m10: e10, m11: e11 }),
        _ => None,
    }
}

/// Checked scaled outer product `v * v^T / d`, entry by entry.
pub open spec fn cm_outer_div(v: RatV2, d: Rat) -> Option<RatM2> {
    match (
        c_div(c_fit(rat_mul(v.c0, v.c0)), d),
        c_div(c_fit(rat_mul(v.c0, v.c1)), d),
        c_div(c_fit(rat_mul(v.c1, v.c0)), d),
        c_div(c_fit(rat_mul(v.c1, v.c1)), d),
    ) {
        (Some(e00), Some(e01), Some(e10), Some(e11)) =>
            Some(RatM2 { m00: e00, m01: e01, m10: e10, m11: e11 }),
        _ => None,
    }
}

/// The identity matrix model.
pub open spec fn spec_identity() -> RatM2 {
    RatM2 {
        m00: Rat { num: 1, den: 1 },
        m01: Rat { num: 0, den: 1 },
        m10: Rat { num: 0, den: 1 },
        m11: Rat { num: 1, den: 1 },
    }
}

/// A two-dimensional vector of exact rational scalars.
#[derive(Clone, Copy, Debug, PartialEq, Eq, Structural)]
pub struct Vec2 {
    pub c0: Rational,
    pub c1: Rational,
}

impl View for Vec2 {
    type V = RatV2;

    open spec fn view(&self) -> RatV2 {
        RatV2 { c0: self.c0@, c1: self.c1@ }
    }
}

impl Vec2 {
    pub open spec fn wf(&self) -> bool {
        self.c0.wf() && self.c1.wf()
    }

    /// Builds the vector `(c0, c1)`.
    pub fn new(c0: Rational, c1: Rational) -> (r: Vec2)
        requires
            c0.wf(),
            c1.wf(),
        ensures
            r.wf(),
            r@ == (RatV2 { c0: c0@, c1: c1@ }),
    {
        Vec2 { c0, c1 }
    }

    /// Checked component-wise sum.
    pub fn add(&self, other: &Vec2) -> (r: Option<Vec2>)
        requires
            self.wf(),
            other.wf(),
        ensures
            match r {
                Some(c) => c.wf() && cv_add(self@, other@) == Some(c@),
                None => cv_add(self@, other@) is None,
            },
    {
        let x = match self.c0.add(&other.c0) {
            Some(x) => x,
            None => { return None; },
        };
        let y = match self.c1.add(&other.c1) {
            Some(y) => y,
            None => { return None; },
        };
        Some(Vec2 { c0: x, c1: y })
    }

    /// Checked component-wise difference.
    pub fn sub(&self, other: &Vec2) -> (r: Option<Vec2>)
        requires
            self.wf(),
            other.wf(),
        ensures
            match r {
                Some(c) => c.wf() && cv_sub(self@, other@) == Some(c@),
                None => cv_sub(self@, other@) is None,
            },
    {
        let x = match self.c0.sub(&other.c0) {
            Some(x) => x,
            None => { return None; },
        };
        let y = match self.c1.sub(&other.c1) {
            Some(y) => y,
            None => { return None; },
        };
        Some(Vec2 { c0: x, c1: y })
    }

    /// Checked component-wise negation.
    pub fn neg(&self) -> (r: Option<Vec2>)
        requires
            self.wf(),
        ensures
            match r {
                Some(c) => c.wf() && cv_neg(self@) == Some(c@),
                None => cv_neg(self@) is None,
            },
    {
        let x = match self.c0.neg() {
            Some(x) => x,
            None => { return None; },
        };
        let y = match self.c1.neg() {
            Some(y) => y,
            None => { return None; },
        };
        Some(Vec2 { c0: x, c1: y })
    }

    /// Checked dot product.
    pub fn dot(&self, other: &Vec2) -> (r: Option<Rational>)
        requires
            self.wf(),
            other.wf(),
        ensures
            match r {
                Some(c) => c.wf() && cv_dot(self@, other@) == Some(c@),
                None => cv_dot(self@, other@) is None,
            },
    {
        let p0 = match self.c0.mul(&other.c0) {
            Some(p) => p,
            None => { return None; },
        };
        let p1 = match self.c1.mul(&other.c1) {
            Some(p) => p,
            None => { return None; },
        };
        p0.add(&p1)
    }
}

/// A 2x2 matrix of exact rational scalars.
#[derive(Clone, Copy, Debug, PartialEq, Eq, Structural)]
pub struct Mat2 {
    pub m00: Rational,
    pub m01: Rational,
    pub m10: Rational,
    pub m11: Rational,
}

impl View for Mat2 {
    type V = RatM2;

    open spec fn view(&self) -> RatM2 {
        RatM2 { m00: self.m00@, m01: self.m01@, m10: self.m10@, m11: self.m11@ }
    }
}

impl Mat2 {
    pub open spec fn wf(&self) -> bool {
        self.m00.wf() && self.m01.wf() && self.m10.wf() && self.m11.wf()
    }

    /// Builds the matrix from its four entries, row major.
    pub fn new(m00: Rational, m01: Rational, m10: Rational, m11: Rational) -> (r: Mat2)
        requires
            m00.wf(),
            m01.wf(),
            m10.wf(),
            m11.wf(),
        ensures
            r.wf(),
            r@ == (RatM2 { m00: m00@, m01: m01@, m10: m10@, m11: m11@ }),
    {
        Mat2 { m00, m01, m10, m11 }
    }

    /// The identity matrix.
    pub fn identity() -> (r: Mat2)
        ensures
            r.wf(),
            r@ == spec_identity(),
    {
        Mat2 {
            m00: Rational::from_integer(1),
            m01: Rational::from_integer(0),
            m10: Rational::from_integer(0),
            m11: Rational::from_integer(1),
        }
    }

    /// Checked matrix-vector product.
    pub fn mul_vec(&self, v: &Vec2) -> (r: Option<Vec2>)
        requires
            self.wf(),
            v.wf(),
        ensures
            match r {
                Some(c) => c.wf() && cm_mul_vec(self@, v@) == Some(c@),
                None => cm_mul_vec(self@, v@) is None,
            },
    {
        let p00 = match self.m00.mul(&v.c0) {
            Some(p) => p,
            None => { return None; },
        };
        let p01 = match self.m01.mul(&v.c1) {
            Some(p) => p,
            None => { return None; },
        };
        let row0 = match p00.add(&p01) {
            Some(p) => p,
            None => { return None; },
        };
        let p10 = match self.m10.mul(&v.c0) {
            Some(p) => p,
            None => { return None; },
        };
        let p11 = match self.m11.mul(&v.c1) {
            Some(p) => p,
            None => { return None; },
        };
        let row1 = match p10.add(&p11) {
            Some(p) => p,
            None => { return None; },
        };
        Some(Vec2 { c0: row0, c1: row1 })
    }

    /// Checked entry-wise sum.
    pub fn add(&self, other: &Mat2) -> (r: Option<Mat2>)
        requires
            self.wf(),
            other.wf(),
        ensures
            match r {
                Some(c) => c.wf() && cm_add(self@, other@) == Some(c@),
                None => cm_add(self@, other@) is None,
            },
    {
        let e00 = match self.m00.add(&other.m00) {
            Some(e) => e,
            None => { return None; },
        };
        let e01 = match self.m01.add(&other.m01) {
            Some(e) => e,
            None => { return None; },
        };
        let e10 = match self.m10.add(&other.m10) {
            Some(e) => e,
            None => { return None; },
        };
        let e11 = match self.m11.add(&other.m11) {
            Some(e) => e,
            None => { return None; },
        };
        Some(Mat2 { m00: e00, m01: e01, m10: e10, m11: e11 })
    }

    /// Checked scaled outer product `v * v^T / d` of a vector with itself.
    pub fn outer_div(v: &Vec2, d: &Rational) -> (r: Option<Mat2>)
        requires
            v.wf(),
            d.wf(),
            d@.num != 0,
        ensures
            match r {
                Some(c) => c.wf() && cm_outer_div(v@, d@) == Some(c@),
                None => cm_outer_div(v@, d@) is None,
            },
    {
        let e00 = match Self::mul_then_div(&v.c0, &v.c0, d) {
            Some(e) => e,
            None => { return None; },
        };
        let e01 = match Self::mul_then_div(&v.c0, &v.c1, d) {
            Some(e) => e,
            None => { return None; },
        };
        let e10 = match Self::mul_then_div(&v.c1, &v.c0, d) {
            Some(e) => e,
            None => { return None; },
        };
        let e11 = match Self::mul_then_div(&v.c1, &v.c1, d) {
            Some(e) => e,
            None => { return None; },
        };
        Some(Mat2 { m00: e00, m01: e01, m10: e10, m11: e11 })
    }

    /// Checked product of two scalars divided by a nonzero scalar.
    fn mul_then_div(a: &Rational, b: &Rational, d: &Rational) -> (r: Option<Rational>)
        requires
            a.wf(),
            b.wf(),
            d.wf(),
            d@.num != 0,
        ensures
            match r {
                Some(c) => c.wf() && c_div(c_fit(rat_mul(a@, b@)), d@) == Some(c@),
                None => c_div(c_fit(rat_mul(a@, b@)), d@) is None,
            },
    {
        let p = match a.mul(b) {
            Some(p) => p,
            None => { return None; },
        };
        p.div(d)
    }
}

} // verus!
