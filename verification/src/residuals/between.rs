//! The residual of a relative measurement between two variables.

use vstd::prelude::*;
use crate::linalg::dual::Dual;
use crate::linalg::numeric::{models, Numeric};
use crate::variables::var::Var;

verus! {

/// The residual `(x^-1 * y) (-) delta` of two variables of one kind: how far
/// the step from `x` to `y` is from the measured step `delta`.
pub struct BetweenResidual<T> {
    pub delta: Var<T>,
}

impl<T: Numeric> BetweenResidual<T> {
    /// The residual of the measured step `delta`.
    pub fn new(delta: Var<T>) -> (r: Self)
        ensures
            r.delta@ == delta@,
    {
        BetweenResidual { delta }
    }

    /// The dimension of the residual.
    pub fn dim(&self) -> (r: usize)
        ensures
            r == self.delta@.dim(),
    {
        self.delta.dim()
    }

    /// The residual at `x` and `y`, variables of the measurement's kind.
    pub fn residual2(&self, x: &Var<T>, y: &Var<T>) -> (r: Vec<T>)
        requires
            x@.same_kind(self.delta@),
            y@.same_kind(self.delta@),
        ensures
            r@.len() == self.delta@.dim(),
            models(r@) == y@.minus(x@).ominus(self.delta@),
    {
        y.minus(x).ominus(&self.delta)
    }

    /// The same residual over dual numbers.
    pub fn lift(&self) -> (r: BetweenResidual<Dual<T>>)
        ensures
            r.delta@ == self.delta@.lift(),
    {
        BetweenResidual { delta: self.delta.lift() }
    }

    /// A copy.
    pub fn copy(&self) -> (r: Self)
        ensures
            r.delta@ == self.delta@,
    {
        BetweenResidual { delta: self.delta.copy() }
    }
}

} // verus!
