//! A general-dimension model of the SR1 correction.
//!
//! The executable optimizer fixes the dimension at two, which makes the
//! shape of its vectors and matrices part of their types. The laws here
//! state the shape and symmetry facts for every dimension `n`: the
//! corrected approximation stays `n` by `n`, and stays symmetric,
//! because the added rank-1 term `v v^T / d` is itself symmetric.

use vstd::prelude::*;

use crate::rational::{rat_add, rat_div, rat_mul, Rat};

verus! {

/// Whether `m` is an `n` by `n` matrix of scalar pairs.
pub open spec fn is_square(m: Seq<Seq<Rat>>, n: nat) -> bool {
    m.len() == n && forall|i: int| 0 <= i < n ==> (#[trigger] m[i]).len() == n
}

/// Whether a matrix is symmetric.
pub open spec fn is_symmetric(m: Seq<Seq<Rat>>) -> bool {
    forall|i: int, j: int|
        0 <= i < m.len() && 0 <= j < m.len() ==> #[trigger] m[i][j] == m[j][i]
}

/// The SR1-corrected approximation in any dimension: every entry of `h`
/// gains the matching entry `v[i] * v[j] / d` of the rank-1 term.
pub open spec fn corrected(h: Seq<Seq<Rat>>, v: Seq<Rat>, d: Rat) -> Seq<Seq<Rat>> {
    Seq::new(
        h.len(),
        |i: int| Seq::new(h.len(), |j: int| rat_add(h[i][j], rat_div(rat_mul(v[i], v[j]), d))),
    )
}

/// Law: the corrected approximation keeps the shape `n` by `n`, for
/// every dimension `n`.
pub proof fn lemma_correction_preserves_dimension(h: Seq<Seq<Rat>>, v: Seq<Rat>, d: Rat, n: nat)
    requires
        is_square(h, n),
    ensures
        is_square(corrected(h, v, d), n),
{
}

/// Law: the rank-1 term is symmetric by construction, so the corrected
/// form of a symmetric approximation is symmetric, for every dimension.
pub proof fn lemma_correction_preserves_symmetry(h: Seq<Seq<Rat>>, v: Seq<Rat>, d: Rat, n: nat)
    requires
        is_square(h, n),
        is_symmetric(h),
    ensures
        is_symmetric(corrected(h, v, d)),
{
    let c = corrected(h, v, d);
    assert forall|i: int, j: int|
        0 <= i < c.len() && 0 <= j < c.len() implies #[trigger] c[i][j] == c[j][i] by {
        assert(v[i].num * v[j].num == v[j].num * v[i].num) by (nonlinear_arith);
        assert(v[i].den * v[j].den == v[j].den * v[i].den) by (nonlinear_arith);
        assert(rat_mul(v[i], v[j]) == rat_mul(v[j], v[i]));
    }
}

} // verus!
