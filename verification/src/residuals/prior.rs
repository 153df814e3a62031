//! The residual of a prior: how far a variable is from where it is
//! expected.

use vstd::prelude::*;
use crate::linalg::dual::Dual;
use crate::linalg::numeric::{models, Numeric};
use crate::variables::var::Var;

verus! {

/// The residual `x (-) prior` of one variable.
pub struct PriorResidual<T> {
    pub prior: Var<T>,
}

impl<T: Numeric> PriorResidual<T> {
    /// The residual of the expected value `prior`.
    pub fn new(prior: Var<T>) -> (r: Self)
        ensures
            r.prior@ == prior@,
    {
        PriorResidual { prior }
    }

    /// The dimension of the residual.
    pub fn dim(&self) -> (r: usize)
        ensures
            r == self.prior@.dim(),
    {
        self.prior.dim()
    }

    /// The residual at `x`, a variable of the prior's kind.
    pub fn residual1(&self, x: &Var<T>) -> (r: Vec<T>)
        requires
            x@.same_kind(self.prior@),
        ensures
            r@.len() == self.prior@.dim(),
            models(r@) == x@.ominus(self.prior@),
    {
        x.ominus(&self.prior)
    }

    /// The same residual over dual numbers.
    pub fn lift(&self) -> (r: PriorResidual<Dual<T>>)
        ensures
            r.prior@ == self.prior@.lift(),
    {
        PriorResidual { prior: self.prior.lift() }
    }

    /// A copy.
    pub fn copy(&self) -> (r: Self)
        ensures
            r.prior@ == self.prior@,
    {
        PriorResidual { prior: self.prior.copy() }
    }
}

} // verus!
