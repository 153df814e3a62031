//! The noise model of unit covariance.

use vstd::prelude::*;
use crate::linalg::dense::vcopy;
use crate::linalg::matrix::Matrix;
use crate::linalg::numeric::{models, Numeric};

verus! {

/// Unit noise of dimension `N`: whitening changes nothing.
pub struct UnitNoise<const N: usize> {}

impl<const N: usize> UnitNoise<N> {
    /// Unit noise.
    pub fn new() -> (r: Self) {
        UnitNoise {  }
    }

    /// The dimension.
    pub fn dim(&self) -> (r: usize)
        ensures
            r == N,
    {
        N
    }

    /// The vector itself.
    pub fn whiten_vec<T: Numeric>(&self, v: &Vec<T>) -> (r: Vec<T>)
        ensures
            models(r@) == models(v@),
    {
        vcopy(v)
    }

    /// The matrix itself.
    pub fn whiten_mat<T: Numeric>(&self, m: &Matrix<T>) -> (r: Matrix<T>)
        requires
            m.wf(),
        ensures
            r.wf(),
            r@ == m@,
    {
        m.copy()
    }
}

} // verus!
