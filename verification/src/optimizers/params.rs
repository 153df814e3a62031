//! What the optimisers share: when to stop, and how a run can end.

use vstd::prelude::*;
use crate::containers::factor::GraphError;
use crate::containers::key::Key;
use crate::containers::values::Values;
use crate::linalg::dense::{norm_inf, norm_inf_model};
use crate::linalg::numeric::{abs, abs_model, models, Numeric, Scalar};
use crate::variables::var::VarModel;

verus! {

/// The model of the stopping rules.
pub struct ParamsModel<V> {
    pub max_iterations: nat,
    pub step_tol: V,
    pub error_tol: V,
}

/// When an optimiser stops.
pub struct OptParams<T> {
    /// The number of iterations after which the run is given up.
    pub max_iterations: usize,
    /// The run has converged when the greatest entry of the step is below
    /// this.
    pub step_tol: T,
    /// The run has converged when the error changes by less than this.
    pub error_tol: T,
}

impl<T: Numeric> View for OptParams<T> {
    type V = ParamsModel<T::M>;

    open spec fn view(&self) -> ParamsModel<T::M> {
        ParamsModel {
            max_iterations: self.max_iterations as nat,
            step_tol: self.step_tol@,
            error_tol: self.error_tol@,
        }
    }
}

impl<T: Numeric> OptParams<T> {
    /// At most 100 iterations, and the tolerances `10^-6` on the step and
    /// on the change of the error.
    pub fn default() -> (r: Self)
        ensures
            r@ == (ParamsModel {
                max_iterations: 100,
                step_tol: T::M::ratio(1, 1000000),
                error_tol: T::M::ratio(1, 1000000),
            }),
    {
        OptParams {
            max_iterations: 100,
            step_tol: T::from_ratio(1, 1000000),
            error_tol: T::from_ratio(1, 1000000),
        }
    }

    /// A copy.
    pub fn copy(&self) -> (r: Self)
        ensures
            r@ == self@,
    {
        OptParams {
            max_iterations: self.max_iterations,
            step_tol: self.step_tol.copy(),
            error_tol: self.error_tol.copy(),
        }
    }

    /// Whether the step is small.
    pub fn small_step(&self, delta: &Vec<T>) -> (r: bool)
        ensures
            r == self@.small_step(models(delta@)),
    {
        norm_inf(delta).lt(&self.step_tol)
    }

    /// Whether the step or the change of the error is small.
    pub fn converged(&self, delta: &Vec<T>, before: &T, after: &T) -> (r: bool)
        ensures
            r == self@.converged(models(delta@), before@, after@),
    {
        self.small_step(delta) || abs(&before.sub(after)).lt(&self.error_tol)
    }
}

impl<V: Scalar> ParamsModel<V> {
    /// The greatest absolute value of the step's entries is below the
    /// tolerance.
    pub open spec fn small_step(self, delta: Seq<V>) -> bool {
        norm_inf_model(delta).lt(self.step_tol)
    }

    /// The step is small, or the error has changed by less than the
    /// tolerance.
    pub open spec fn converged(self, delta: Seq<V>, before: V, after: V) -> bool {
        self.small_step(delta) || abs_model(before.sub(after)).lt(self.error_tol)
    }
}

/// How a run ends.
pub enum Outcome<V> {
    /// The step or the change of the error became small; these are the
    /// values reached.
    Converged(Seq<(Key, VarModel<V>)>),
    /// The iterations ran out; these are the values reached.
    MaxIterations(Seq<(Key, VarModel<V>)>),
    /// The linear system of an iteration could not be solved; these are the
    /// values it was set up at.
    LinSolveFailed(Seq<(Key, VarModel<V>)>),
    /// A factor could not be evaluated.
    Graph(GraphError),
}

/// Why a run did not converge.
pub enum OptError<T> {
    /// The iterations ran out; these are the values reached.
    MaxIterations(Values<T>),
    /// The linear system of an iteration could not be solved; these are the
    /// values it was set up at.
    LinSolveFailed(Values<T>),
    /// A factor could not be evaluated.
    Graph(GraphError),
}

/// The outcome that a result stands for.
pub open spec fn outcome_of<T: Numeric>(r: Result<Values<T>, OptError<T>>) -> Outcome<T::M> {
    match r {
        Ok(values) => Outcome::Converged(values@),
        Err(OptError::MaxIterations(values)) => Outcome::MaxIterations(values@),
        Err(OptError::LinSolveFailed(values)) => Outcome::LinSolveFailed(values@),
        Err(OptError::Graph(e)) => Outcome::Graph(e),
    }
}

/// The values of a result are well formed.
pub open spec fn result_wf<T: Numeric>(r: Result<Values<T>, OptError<T>>) -> bool {
    match r {
        Ok(values) => values.wf(),
        Err(OptError::MaxIterations(values)) => values.wf(),
        Err(OptError::LinSolveFailed(values)) => values.wf(),
        Err(OptError::Graph(e)) => true,
    }
}

} // verus!
