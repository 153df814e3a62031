//! Scalars, dual numbers and dense linear algebra.

pub mod cholesky;
pub mod dense;
pub mod diff;
pub mod dual;
pub mod matrix;
pub mod numeric;

pub use numeric::{Numeric, Scalar};
