//! What a residual provides.

use vstd::prelude::*;
use crate::linalg::dual::{Dual, DualModel};
use crate::linalg::numeric::{models, Numeric};
use crate::residuals::residual::var_models;
use crate::variables::var::{Var, VarModel};

verus! {

/// A residual over the scalar `S`: a function of some variables whose value
/// is a vector of a fixed dimension.
pub trait Residual<S: Numeric>: Sized {
    /// The number of variables that the residual takes.
    spec fn arity_model(&self) -> nat;

    /// The dimension of the residual.
    spec fn dim_model(&self) -> nat;

    /// The residual can be taken at these variables.
    spec fn accepts_model(&self, vars: Seq<VarModel<S::M>>) -> bool;

    /// The residual at these variables.
    spec fn eval_model(&self, vars: Seq<VarModel<S::M>>) -> Seq<S::M>;

    /// The number of variables that the residual takes.
    fn arity(&self) -> (r: usize)
        ensures
            r == self.arity_model(),
    ;

    /// The dimension of the residual.
    fn dim(&self) -> (r: usize)
        ensures
            r == self.dim_model(),
    ;

    /// Whether the residual can be taken at these variables.
    fn accepts(&self, vars: &Vec<Var<S>>) -> (r: bool)
        ensures
            r == self.accepts_model(var_models(vars@)),
    ;

    /// The residual at these variables.
    fn eval(&self, vars: &Vec<Var<S>>) -> (r: Vec<S>)
        requires
            self.accepts_model(var_models(vars@)),
        ensures
            r@.len() == self.dim_model(),
            models(r@) == self.eval_model(var_models(vars@)),
    ;
}

/// A residual over the scalar `T` that can be written over dual numbers
/// too, so that it can be differentiated.
pub trait Liftable<T: Numeric>: Residual<T> {
    /// The residual over dual numbers.
    type Lifted: Residual<Dual<T>>;

    /// The residual over dual numbers can be taken at these variables.
    spec fn dual_accepts_model(&self, vars: Seq<VarModel<DualModel<T::M>>>) -> bool;

    /// The residual over dual numbers at these variables.
    spec fn dual_eval_model(&self, vars: Seq<VarModel<DualModel<T::M>>>) -> Seq<DualModel<T::M>>;

    /// The same residual over dual numbers.
    fn lift(&self) -> (r: Self::Lifted)
        ensures
            r.dim_model() == self.dim_model(),
            forall|vars: Seq<VarModel<DualModel<T::M>>>| #[trigger]
                r.accepts_model(vars) == self.dual_accepts_model(vars),
            forall|vars: Seq<VarModel<DualModel<T::M>>>| #[trigger]
                r.eval_model(vars) == self.dual_eval_model(vars),
    ;
}

} // verus!
