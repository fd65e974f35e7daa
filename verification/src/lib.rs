//! A verified SR1 (symmetric rank-1) quasi-Newton minimizer over exact
//! rational arithmetic.
//!
//! The optimizer keeps an evolving approximation to the inverse Hessian,
//! takes unit steps along `-H * gradient`, and corrects `H` by a symmetric
//! rank-1 term built from the observed gradient change. All arithmetic is
//! exact: scalars are ratios of 64-bit integers, and every operation
//! reports when a result leaves that range instead of rounding.

pub mod driver;
pub mod laws;
pub mod linalg;
pub mod model;
pub mod optimizer;
pub mod quadratic;
pub mod rational;
