use sr1_optimizer::linalg::{Mat2, Vec2};
use sr1_optimizer::optimizer::{sr1_quasi_newton, sr1_update, Outcome};
use sr1_optimizer::quadratic::QuadraticObjective;
use sr1_optimizer::rational::Rational;

fn whole(v: i64) -> Rational {
    Rational::from_integer(v)
}

fn origin() -> Vec2 {
    Vec2::new(whole(0), whole(0))
}

/// The identity-matrix quadratic with the reference linear term.
fn identity_objective() -> QuadraticObjective {
    QuadraticObjective::new(whole(1), whole(0), whole(1), whole(2), whole(-8))
}

#[test]
fn reference_gradient_at_origin() {
    let q = QuadraticObjective::reference();
    let g = q.gradient(&origin()).unwrap();
    assert_eq!(g, Vec2::new(whole(-2), whole(8)));
}

#[test]
fn reference_objective_values() {
    let q = QuadraticObjective::reference();
    assert_eq!(q.objective_function(&origin()), Some(whole(0)));
    let x = Vec2::new(whole(2), whole(-8));
    assert_eq!(q.objective_function(&x), Some(whole(98)));
}

#[test]
fn oracle_is_idempotent() {
    let q = QuadraticObjective::reference();
    let x = Vec2::new(Rational::new(5, 3), Rational::new(-7, 2));
    assert_eq!(q.gradient(&x), q.gradient(&x));
    assert_eq!(q.objective_function(&x), q.objective_function(&x));
}

#[test]
fn update_skipped_when_step_orthogonal_to_v() {
    // With h the identity, s = (1, 0) and y = (1, 5), the correction
    // direction v = y - h s = (0, 5) is orthogonal to s, so the curvature
    // denominator is exactly zero and h must come back unchanged.
    let h = Mat2::identity();
    let s = Vec2::new(whole(1), whole(0));
    let y = Vec2::new(whole(1), whole(5));
    assert_eq!(sr1_update(&h, &s, &y), Some(Mat2::identity()));
}

#[test]
fn update_applies_rank_one_correction() {
    // With h the identity, s = (1, 0) and y = (2, 0): v = (1, 0),
    // denominator v.s = 1, so h gains v v^T and becomes [[2, 0], [0, 1]].
    let h = Mat2::identity();
    let s = Vec2::new(whole(1), whole(0));
    let y = Vec2::new(whole(2), whole(0));
    let hn = sr1_update(&h, &s, &y).unwrap();
    assert_eq!(hn, Mat2::new(whole(2), whole(0), whole(0), whole(1)));
}

#[test]
fn zero_budget_returns_initial_point_exhausted() {
    let q = QuadraticObjective::reference();
    let (point, outcome) = sr1_quasi_newton(&q, origin(), Rational::new(1, 1000000), 0);
    assert_eq!(outcome, Outcome::Exhausted);
    assert_eq!(point, origin());
}

#[test]
fn identity_quadratic_converges_in_one_iteration() {
    // With A the identity the first unit step lands on the minimizer
    // b = (2, -8) exactly, and the second gradient check sees zero.
    let q = identity_objective();
    let (point, outcome) = sr1_quasi_newton(&q, origin(), Rational::new(1, 100), 100);
    assert_eq!(outcome, Outcome::Converged { iterations: 1 });
    assert_eq!(point, Vec2::new(whole(2), whole(-8)));
    // The objective value at the minimizer: 1/2 (4 + 64) - (4 + 64).
    assert_eq!(q.objective_function(&point), Some(whole(-34)));
}

#[test]
fn diagonal_quadratic_converges_in_several_iterations() {
    // A = [[1/2, 0], [0, 1]], b = (1, 1): the first update turns the
    // approximation into A itself, after which the error shrinks by 3/4
    // per iteration; the gradient norm drops below 1/10 at iteration 7.
    // Convergence is eventual, not monotone step by step.
    let q = QuadraticObjective::new(Rational::new(1, 2), whole(0), whole(1), whole(1), whole(1));
    let (point, outcome) = sr1_quasi_newton(&q, origin(), Rational::new(1, 10), 100);
    assert_eq!(outcome, Outcome::Converged { iterations: 7 });
    assert_eq!(point, Vec2::new(Rational::new(7463, 4096), whole(1)));
}

#[test]
fn reference_quadratic_run_leaves_the_scalar_range() {
    // On the reference quadratic the fixed unit step overshoots: the
    // approximation reaches A itself after two iterations and the error
    // then grows by about a factor 48 per step, so the exact run leaves
    // the scalar range instead of converging.
    let q = QuadraticObjective::reference();
    let (point, outcome) = sr1_quasi_newton(&q, origin(), Rational::new(1, 1000000), 100);
    assert_eq!(outcome, Outcome::NotRepresentable);
    assert_eq!(
        point,
        Vec2::new(Rational::new(6191710978, 11), Rational::new(12383485556, 11))
    );
}

#[test]
fn nonpositive_tolerance_never_converges() {
    // With tolerance zero the gradient test can never pass, even at an
    // exact stationary point; the run spends its whole budget.
    let q = identity_objective();
    let (point, outcome) = sr1_quasi_newton(&q, origin(), whole(0), 5);
    assert_eq!(outcome, Outcome::Exhausted);
    assert_eq!(point, Vec2::new(whole(2), whole(-8)));
}
