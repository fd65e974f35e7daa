//! Exact rational scalars backed by `i64` numerator/denominator pairs.
//!
//! Every arithmetic operation computes the exact result of the usual
//! textbook formula, reduces it to lowest terms, and returns `None` when
//! even the reduced result does not fit the backing integers. The
//! mathematical value of a scalar is the ghost pair [`Rat`]; contracts
//! speak of those pairs through the spec-level formulas below, and every
//! operation returns exactly the canonical pair [`rat_canon`] of its
//! textbook formula.

use vstd::prelude::*;

verus! {

/// Mathematical model of a rational scalar: an integer pair `num / den`.
pub ghost struct Rat {
    pub num: int,
    pub den: int,
}

/// A model pair is meaningful when its denominator is positive.
pub open spec fn rat_wf(r: Rat) -> bool {
    r.den >= 1
}

/// The pair can be stored in a `Rational` (both parts fit `i64`,
/// denominator positive).
pub open spec fn rat_fits(r: Rat) -> bool {
    &&& i64::MIN as int <= r.num
    &&& r.num <= i64::MAX as int
    &&& 1 <= r.den
    &&& r.den <= i64::MAX as int
}

/// Exact sum, on the common denominator.
pub open spec fn rat_add(a: Rat, b: Rat) -> Rat {
    Rat { num: a.num * b.den + b.num * a.den, den: a.den * b.den }
}

/// Exact difference, on the common denominator.
pub open spec fn rat_sub(a: Rat, b: Rat) -> Rat {
    Rat { num: a.num * b.den - b.num * a.den, den: a.den * b.den }
}

/// Exact product.
pub open spec fn rat_mul(a: Rat, b: Rat) -> Rat {
    Rat { num: a.num * b.num, den: a.den * b.den }
}

/// Exact negation.
pub open spec fn rat_neg(a: Rat) -> Rat {
    Rat { num: -a.num, den: a.den }
}

/// Exact quotient `a / b`, with the sign moved into the numerator so the
/// denominator stays positive. Meaningful only for `b.num != 0`.
pub open spec fn rat_div(a: Rat, b: Rat) -> Rat {
    if b.num > 0 {
        Rat { num: a.num * b.den, den: a.den * b.num }
    } else {
        Rat { num: -(a.num * b.den), den: a.den * (-b.num) }
    }
}

/// The magnitude of an integer.
pub open spec fn abs_int(a: int) -> nat {
    if a >= 0 {
        a as nat
    } else {
        (-a) as nat
    }
}

/// Euclid's greatest common divisor.
pub open spec fn gcd(a: nat, b: nat) -> nat
    decreases b,
{
    if b == 0 {
        a
    } else {
        gcd(b, a % b)
    }
}

/// The greatest common divisor with a positive argument is positive.
pub proof fn lemma_gcd_pos(a: nat, b: nat)
    requires
        b >= 1,
    ensures
        gcd(a, b) >= 1,
    decreases b,
{
    if a % b == 0 {
        assert(gcd(a, b) == gcd(b, 0nat));
    } else {
        lemma_gcd_pos(b, a % b);
    }
}

/// The greatest common divisor divides both of its arguments.
pub proof fn lemma_gcd_divides(a: nat, b: nat)
    requires
        b >= 1,
    ensures
        a as int % (gcd(a, b) as int) == 0,
        b as int % (gcd(a, b) as int) == 0,
    decreases b,
{
    lemma_gcd_pos(a, b);
    let g = gcd(a, b) as int;
    if a % b == 0 {
        assert(gcd(a, b) == gcd(b, 0nat));
        assert(g == b as int);
        assert(b as int % g == 0) by {
            vstd::arithmetic::div_mod::lemma_mod_multiples_basic(1int, g);
        }
        assert(a as int % g == 0);
    } else {
        lemma_gcd_divides(b, a % b);
        assert(gcd(a, b) == gcd(b, a % b));
        let qb = b as int / g;
        let qr = (a % b) as int / g;
        vstd::arithmetic::div_mod::lemma_fundamental_div_mod(b as int, g);
        vstd::arithmetic::div_mod::lemma_fundamental_div_mod((a % b) as int, g);
        assert(b as int == g * qb);
        assert((a % b) as int == g * qr);
        vstd::arithmetic::div_mod::lemma_fundamental_div_mod(a as int, b as int);
        let qab = a as int / b as int;
        assert(a as int == b as int * qab + (a % b) as int);
        assert(a as int == (qb * qab + qr) * g) by (nonlinear_arith)
            requires
                a as int == b as int * qab + (a % b) as int,
                b as int == g * qb,
                (a % b) as int == g * qr;
        vstd::arithmetic::div_mod::lemma_mod_multiples_basic(qb * qab + qr, g);
    }
}

/// Reduction to lowest terms keeps the value: the canonical pair of a
/// well-formed pair is well formed and equal in value to it.
pub proof fn lemma_canon_preserves_value(r: Rat)
    requires
        rat_wf(r),
    ensures
        rat_wf(rat_canon(r)),
        rat_eq(rat_canon(r), r),
{
    let a = abs_int(r.num) as int;
    let d = r.den;
    lemma_gcd_pos(abs_int(r.num), r.den as nat);
    let g = gcd(abs_int(r.num), r.den as nat) as int;
    lemma_gcd_divides(abs_int(r.num), r.den as nat);
    let qa = a / g;
    let qd = d / g;
    vstd::arithmetic::div_mod::lemma_fundamental_div_mod(a, g);
    vstd::arithmetic::div_mod::lemma_fundamental_div_mod(d, g);
    assert(a == g * qa);
    assert(d == g * qd);
    assert(qd >= 1) by (nonlinear_arith)
        requires
            d == g * qd,
            d >= 1,
            g >= 1;
    assert(qa * d == a * qd) by (nonlinear_arith)
        requires
            a == g * qa,
            d == g * qd;
    if r.num >= 0 {
        assert(rat_eq(rat_canon(r), r));
    } else {
        assert(a == -r.num);
        assert((-qa) * d == r.num * qd) by (nonlinear_arith)
            requires
                qa * d == a * qd,
                a == -r.num;
    }
}

/// The canonical (lowest-terms) form of a pair with a positive
/// denominator: both parts divided by their greatest common divisor,
/// the sign kept on the numerator.
pub open spec fn rat_canon(r: Rat) -> Rat {
    let a = abs_int(r.num) as int;
    let g = gcd(abs_int(r.num), r.den as nat) as int;
    Rat {
        num: if r.num >= 0 {
            a / g
        } else {
            -(a / g)
        },
        den: r.den / g,
    }
}

/// Value equality of two pairs (cross multiplication; denominators positive).
pub open spec fn rat_eq(a: Rat, b: Rat) -> bool {
    a.num * b.den == b.num * a.den
}

/// Strict order of two pairs (cross multiplication; denominators positive).
pub open spec fn rat_lt(a: Rat, b: Rat) -> bool {
    a.num * b.den < b.num * a.den
}

/// A product of two `i64`-range factors stays well inside `i128`.
pub proof fn lemma_mul_i64_fits(a: int, b: int)
    requires
        i64::MIN as int <= a <= i64::MAX as int,
        i64::MIN as int <= b <= i64::MAX as int,
    ensures
        -0x40000000000000000000000000000000 <= a * b,
        a * b <= 0x40000000000000000000000000000000,
{
    assert(-0x40000000000000000000000000000000 <= a * b <= 0x40000000000000000000000000000000)
        by (nonlinear_arith)
        requires
            -0x8000000000000000 <= a <= 0x7fffffffffffffff,
            -0x8000000000000000 <= b <= 0x7fffffffffffffff;
}

/// A numerator times a positive denominator is bounded strictly enough
/// that two such products can be added inside `i128`.
pub proof fn lemma_mul_num_den_fits(a: int, b: int)
    requires
        i64::MIN as int <= a <= i64::MAX as int,
        1 <= b <= i64::MAX as int,
    ensures
        -0x3fffffffffffffff8000000000000000 <= a * b,
        a * b <= 0x3fffffffffffffff8000000000000000,
{
    assert(-0x3fffffffffffffff8000000000000000 <= a * b <= 0x3fffffffffffffff8000000000000000)
        by (nonlinear_arith)
        requires
            -0x8000000000000000 <= a <= 0x7fffffffffffffff,
            1 <= b <= 0x7fffffffffffffff;
}

/// A product of two positive denominators is positive and fits `i128`.
pub proof fn lemma_mul_den_den_pos(a: int, b: int)
    requires
        1 <= a <= i64::MAX as int,
        1 <= b <= i64::MAX as int,
    ensures
        1 <= a * b,
        a * b <= 0x40000000000000000000000000000000,
{
    assert(1 <= a * b <= 0x40000000000000000000000000000000) by (nonlinear_arith)
        requires
            1 <= a <= 0x7fffffffffffffff,
            1 <= b <= 0x7fffffffffffffff;
}

/// An exact rational scalar. The denominator is kept positive; values are
/// not reduced to lowest terms, so each operation produces the exact pair
/// given by the corresponding spec formula.
#[derive(Clone, Copy, Debug, PartialEq, Eq, Structural)]
pub struct Rational {
    pub numerator: i64,
    pub denominator: i64,
}

impl View for Rational {
    type V = Rat;

    open spec fn view(&self) -> Rat {
        Rat { num: self.numerator as int, den: self.denominator as int }
    }
}

impl Rational {
    /// The denominator is positive; every constructor establishes this and
    /// every operation preserves it.
    pub open spec fn wf(&self) -> bool {
        self.denominator >= 1
    }

    /// Builds `numerator / denominator` from a positive denominator.
    pub fn new(numerator: i64, denominator: i64) -> (r: Rational)
        requires
            denominator >= 1,
        ensures
            r.wf(),
            r@ == (Rat { num: numerator as int, den: denominator as int }),
    {
        Rational { numerator, denominator }
    }

    /// Builds the integer `value / 1`.
    pub fn from_integer(value: i64) -> (r: Rational)
        ensures
            r.wf(),
            r@ == (Rat { num: value as int, den: 1 }),
    {
        Rational { numerator: value, denominator: 1 }
    }

    /// Exact sum in lowest terms; `None` exactly when even the reduced
    /// result leaves `i64` range.
    pub fn add(&self, other: &Rational) -> (r: Option<Rational>)
        requires
            self.wf(),
            other.wf(),
        ensures
            match r {
                Some(c) => c.wf() && rat_fits(rat_canon(rat_add(self@, other@))) && c@
                    == rat_canon(rat_add(self@, other@)),
                None => !rat_fits(rat_canon(rat_add(self@, other@))),
            },
    {
        proof {
            lemma_mul_num_den_fits(self.numerator as int, other.denominator as int);
            lemma_mul_num_den_fits(other.numerator as int, self.denominator as int);
            lemma_mul_den_den_pos(self.denominator as int, other.denominator as int);
        }
        let n: i128 = (self.numerator as i128) * (other.denominator as i128)
            + (other.numerator as i128) * (self.denominator as i128);
        let d: i128 = (self.denominator as i128) * (other.denominator as i128);
        Self::make_canonical(n, d)
    }

    /// Exact difference in lowest terms; `None` exactly when even the
    /// reduced result leaves `i64` range.
    pub fn sub(&self, other: &Rational) -> (r: Option<Rational>)
        requires
            self.wf(),
            other.wf(),
        ensures
            match r {
                Some(c) => c.wf() && rat_fits(rat_canon(rat_sub(self@, other@))) && c@
                    == rat_canon(rat_sub(self@, other@)),
                None => !rat_fits(rat_canon(rat_sub(self@, other@))),
            },
    {
        proof {
            lemma_mul_num_den_fits(self.numerator as int, other.denominator as int);
            lemma_mul_num_den_fits(other.numerator as int, self.denominator as int);
            lemma_mul_den_den_pos(self.denominator as int, other.denominator as int);
        }
        let n: i128 = (self.numerator as i128) * (other.denominator as i128)
            - (other.numerator as i128) * (self.denominator as i128);
        let d: i128 = (self.denominator as i128) * (other.denominator as i128);
        Self::make_canonical(n, d)
    }

    /// Exact product in lowest terms; `None` exactly when even the reduced
    /// result leaves `i64` range.
    pub fn mul(&self, other: &Rational) -> (r: Option<Rational>)
        requires
            self.wf(),
            other.wf(),
        ensures
            match r {
                Some(c) => c.wf() && rat_fits(rat_canon(rat_mul(self@, other@))) && c@
                    == rat_canon(rat_mul(self@, other@)),
                None => !rat_fits(rat_canon(rat_mul(self@, other@))),
            },
    {
        proof {
            lemma_mul_i64_fits(self.numerator as int, other.numerator as int);
            lemma_mul_den_den_pos(self.denominator as int, other.denominator as int);
        }
        let n: i128 = (self.numerator as i128) * (other.numerator as i128);
        let d: i128 = (self.denominator as i128) * (other.denominator as i128);
        Self::make_canonical(n, d)
    }

    /// Exact negation in lowest terms; `None` exactly when even the
    /// reduced result leaves `i64` range.
    pub fn neg(&self) -> (r: Option<Rational>)
        requires
            self.wf(),
        ensures
            match r {
                Some(c) => c.wf() && rat_fits(rat_canon(rat_neg(self@))) && c@ == rat_canon(
                    rat_neg(self@),
                ),
                None => !rat_fits(rat_canon(rat_neg(self@))),
            },
    {
        let n: i128 = -(self.numerator as i128);
        let d: i128 = self.denominator as i128;
        Self::make_canonical(n, d)
    }

    /// Exact quotient by a nonzero scalar, in lowest terms; `None`
    /// exactly when even the reduced result leaves `i64` range.
    pub fn div(&self, other: &Rational) -> (r: Option<Rational>)
        requires
            self.wf(),
            other.wf(),
            other@.num != 0,
        ensures
            match r {
                Some(c) => c.wf() && rat_fits(rat_canon(rat_div(self@, other@))) && c@
                    == rat_canon(rat_div(self@, other@)),
                None => !rat_fits(rat_canon(rat_div(self@, other@))),
            },
    {
        proof {
            lemma_mul_num_den_fits(self.numerator as int, other.denominator as int);
            lemma_mul_i64_fits(self.denominator as int, other.numerator as int);
        }
        let n0: i128 = (self.numerator as i128) * (other.denominator as i128);
        let d0: i128 = (self.denominator as i128) * (other.numerator as i128);
        let n: i128 = if other.numerator > 0 { n0 } else { -n0 };
        let d: i128 = if other.numerator > 0 { d0 } else { -d0 };
        proof {
            if other.numerator > 0 {
                assert(d == (self@.den) * (other@.num));
                assert(d >= 1) by (nonlinear_arith)
                    requires
                        d == (self@.den) * (other@.num),
                        self@.den >= 1,
                        other@.num >= 1;
            } else {
                assert(-((self@.den) * (other@.num)) == (self@.den) * (-other@.num))
                    by (nonlinear_arith);
                assert(-(self@.num * other@.den) == n);
                assert(d >= 1) by (nonlinear_arith)
                    requires
                        d == (self@.den) * (-other@.num),
                        self@.den >= 1,
                        -other@.num >= 1;
            }
        }
        Self::make_canonical(n, d)
    }

    /// Reduces the exact pair `n / d` to lowest terms and stores it when
    /// the reduced parts fit `i64`.
    fn make_canonical(n: i128, d: i128) -> (r: Option<Rational>)
        requires
            1 <= d,
        ensures
            ({
                let canon = rat_canon(Rat { num: n as int, den: d as int });
                match r {
                    Some(c) => c.wf() && rat_fits(canon) && c@ == canon,
                    None => !rat_fits(canon),
                }
            }),
    {
        let un: u128 = if n >= 0 {
            n as u128
        } else {
            ((-(n + 1)) as u128) + 1
        };
        proof {
            assert(un as nat == abs_int(n as int));
        }
        let ud: u128 = d as u128;
        let g: u128 = Self::gcd_u128(un, ud);
        proof {
            lemma_gcd_pos(un as nat, ud as nat);
        }
        let rn: u128 = un / g;
        let rd: u128 = ud / g;
        let num_fits: bool = if n >= 0 {
            rn <= i64::MAX as u128
        } else {
            rn <= 9223372036854775808u128
        };
        if num_fits && rd >= 1 && rd <= i64::MAX as u128 {
            let numerator: i64 = if n >= 0 {
                rn as i64
            } else if rn == 9223372036854775808u128 {
                i64::MIN
            } else {
                -(rn as i64)
            };
            Some(Rational { numerator, denominator: rd as i64 })
        } else {
            None
        }
    }

    /// Euclid's algorithm, the executable form of [`gcd`].
    fn gcd_u128(a: u128, b: u128) -> (r: u128)
        ensures
            r as nat == gcd(a as nat, b as nat),
    {
        let mut x = a;
        let mut y = b;
        while y != 0
            invariant
                gcd(x as nat, y as nat) == gcd(a as nat, b as nat),
            decreases y,
        {
            let t = x % y;
            x = y;
            y = t;
        }
        x
    }

    /// Exact strict order.
    pub fn lt(&self, other: &Rational) -> (r: bool)
        requires
            self.wf(),
            other.wf(),
        ensures
            r == rat_lt(self@, other@),
    {
        proof {
            lemma_mul_num_den_fits(self.numerator as int, other.denominator as int);
            lemma_mul_num_den_fits(other.numerator as int, self.denominator as int);
        }
        (self.numerator as i128) * (other.denominator as i128)
            < (other.numerator as i128) * (self.denominator as i128)
    }

    /// Exact value equality (`1/2` equals `2/4`).
    pub fn eq_rational(&self, other: &Rational) -> (r: bool)
        requires
            self.wf(),
            other.wf(),
        ensures
            r == rat_eq(self@, other@),
    {
        proof {
            lemma_mul_num_den_fits(self.numerator as int, other.denominator as int);
            lemma_mul_num_den_fits(other.numerator as int, self.denominator as int);
        }
        (self.numerator as i128) * (other.denominator as i128)
            == (other.numerator as i128) * (self.denominator as i128)
    }

    /// Whether the value is strictly positive.
    pub fn is_positive(&self) -> (r: bool)
        requires
            self.wf(),
        ensures
            r == (self@.num > 0),
    {
        self.numerator > 0
    }

    /// Whether the value is exactly zero.
    pub fn is_zero(&self) -> (r: bool)
        requires
            self.wf(),
        ensures
            r == (self@.num == 0),
    {
        self.numerator == 0
    }
}

} // verus!
