//! The Gauss-Newton method: every step of the linear system is taken.

use vstd::prelude::*;
use crate::containers::factor::{FactorModel, GraphError};
use crate::containers::graph::{row_total, total_error, Graph};
use crate::containers::key::Key;
use crate::containers::layout::{lemma_same_layout_sym, lemma_total_error_by_layout};
use crate::containers::values::{
    distinct_keys, lemma_retract_layout, lemma_retract_same_layout, lemma_same_layout_trans,
    retract_model, same_layout, total_dim, Values,
};
use crate::linalg::numeric::{models, Numeric, Scalar};
use crate::linear::system::{lemma_assemble_by_layout, linearize, linearize_model};
use crate::optimizers::params::{outcome_of, result_wf, OptError, OptParams, Outcome, ParamsModel};
use crate::residuals::residual::CoreResidual;
use crate::residuals::traits::Liftable;
use crate::variables::var::VarModel;

verus! {

/// What one iteration does.
pub enum GnStep<V> {
    /// The step `delta` was taken: the values after it, and the error
    /// before and after.
    Stepped { values: Seq<(Key, VarModel<V>)>, delta: Seq<V>, before: V, after: V },
    /// The linear system could not be solved.
    LinSolveFailed,
    /// A factor could not be evaluated.
    Graph(GraphError),
}

/// One iteration at `values`: the error, the linear system, its step
/// without damping, and the error at the values with the step retracted
/// onto them.
#[verifier::opaque]
pub open spec fn gn_step<T: Numeric, R: Liftable<T>>(
    graph: Seq<FactorModel<T, R>>,
    values: Seq<(Key, VarModel<T::M>)>,
) -> GnStep<T::M> {
    match total_error(graph, values) {
        Err(e) => GnStep::Graph(e),
        Ok(before) => match linearize_model(graph, values) {
            Err(e) => GnStep::Graph(e),
            Ok(sys) => match sys.solve(None) {
                None => GnStep::LinSolveFailed,
                Some(delta) => match total_error(graph, retract_model(values, delta)) {
                    Err(e) => GnStep::Graph(e),
                    Ok(after) => GnStep::Stepped {
                        values: retract_model(values, delta),
                        delta,
                        before,
                        after,
                    },
                },
            },
        },
    }
}

/// The run from iteration `k` on: it ends with the iterations run out where
/// `k` has reached their number, with the failure of an iteration, or
/// converged after the first iteration whose step or change of error is
/// small.
pub open spec fn gn_run<T: Numeric, R: Liftable<T>>(
    graph: Seq<FactorModel<T, R>>,
    params: ParamsModel<T::M>,
    values: Seq<(Key, VarModel<T::M>)>,
    k: nat,
) -> Outcome<T::M>
    decreases params.max_iterations - k,
{
    if k >= params.max_iterations {
        Outcome::MaxIterations(values)
    } else {
        match gn_step(graph, values) {
            GnStep::Graph(e) => Outcome::Graph(e),
            GnStep::LinSolveFailed => Outcome::LinSolveFailed(values),
            GnStep::Stepped { values: next, delta, before, after } => if params.converged(
                delta,
                before,
                after,
            ) {
                Outcome::Converged(next)
            } else {
                gn_run(graph, params, next, k + 1)
            },
        }
    }
}

/// The values that a run ends with, where it ends with values.
pub open spec fn outcome_values<V>(o: Outcome<V>) -> Option<Seq<(Key, VarModel<V>)>> {
    match o {
        Outcome::Converged(v) => Some(v),
        Outcome::MaxIterations(v) => Some(v),
        Outcome::LinSolveFailed(v) => Some(v),
        Outcome::Graph(_) => None,
    }
}

/// However a run ends, the values it ends with hold the keys of the values
/// it started at, in the same order, and under each key a variable of the
/// same kind.
pub proof fn lemma_gn_run_keeps_layout<T: Numeric, R: Liftable<T>>(
    graph: Seq<FactorModel<T, R>>,
    params: ParamsModel<T::M>,
    values: Seq<(Key, VarModel<T::M>)>,
    k: nat,
)
    ensures
        outcome_values(gn_run(graph, params, values, k)) matches Some(v) ==> same_layout(v, values),
    decreases params.max_iterations - k,
{
    reveal(gn_step);
    if k < params.max_iterations {
        match gn_step(graph, values) {
            GnStep::Stepped { values: next, delta, before, after } => {
                lemma_retract_same_layout(values, delta);
                if !params.converged(delta, before, after) {
                    lemma_gn_run_keeps_layout(graph, params, next, k + 1);
                    if outcome_values(gn_run(graph, params, next, k + 1)) is Some {
                        lemma_same_layout_trans(
                            outcome_values(gn_run(graph, params, next, k + 1))->Some_0,
                            next,
                            values,
                        );
                    }
                }
            },
            _ => {},
        }
    }
}

/// With the residuals that the library provides, a run that starts at
/// values on which the total error can be taken and the linear system set
/// up never ends for a factor that cannot be evaluated: what the factors
/// ask of the values is asked of their layout, which no step changes.
pub proof fn lemma_gn_run_evaluates<T: Numeric>(
    graph: Seq<FactorModel<T, CoreResidual<T>>>,
    params: ParamsModel<T::M>,
    values: Seq<(Key, VarModel<T::M>)>,
    k: nat,
)
    requires
        distinct_keys(values),
        total_error(graph, values) is Ok,
        linearize_model(graph, values) is Ok,
    ensures
        !(gn_run(graph, params, values, k) is Graph),
    decreases params.max_iterations - k,
{
    reveal(gn_step);
    if k < params.max_iterations {
        let sys = linearize_model(graph, values)->Ok_0;
        match sys.solve(None) {
            None => {},
            Some(delta) => {
                let next = retract_model(values, delta);
                lemma_retract_same_layout(values, delta);
                lemma_same_layout_sym::<T>(next, values);
                lemma_total_error_by_layout(graph, values, next, graph.len());
                lemma_assemble_by_layout(graph, values, next, graph.len());
                let before = total_error(graph, values)->Ok_0;
                let after = total_error(graph, next)->Ok_0;
                if !params.converged(delta, before, after) {
                    lemma_gn_run_evaluates(graph, params, next, k + 1);
                }
            },
        }
    }
}

/// A run that is allowed no iteration ends at once, with the values it
/// started at.
pub proof fn lemma_gn_run_without_iterations<T: Numeric, R: Liftable<T>>(
    graph: Seq<FactorModel<T, R>>,
    params: ParamsModel<T::M>,
    values: Seq<(Key, VarModel<T::M>)>,
)
    requires
        params.max_iterations == 0,
    ensures
        gn_run(graph, params, values, 0) == Outcome::MaxIterations(values),
{
}

/// What one iteration did.
pub enum Step<T> {
    /// The step `delta` was taken: the values after it, and the error
    /// before and after.
    Stepped { values: Values<T>, delta: Vec<T>, before: T, after: T },
    /// The linear system could not be solved.
    LinSolveFailed,
    /// A factor could not be evaluated.
    Graph(GraphError),
}

impl<T: Numeric> View for Step<T> {
    type V = GnStep<T::M>;

    open spec fn view(&self) -> GnStep<T::M> {
        match self {
            Step::Stepped { values, delta, before, after } => GnStep::Stepped {
                values: values@,
                delta: models(delta@),
                before: before@,
                after: after@,
            },
            Step::LinSolveFailed => GnStep::LinSolveFailed,
            Step::Graph(e) => GnStep::Graph(*e),
        }
    }
}

/// The Gauss-Newton optimiser of a graph.
pub struct GaussNewton<T, R> {
    graph: Graph<T, R>,
    params: OptParams<T>,
}

impl<T: Numeric, R: Liftable<T>> GaussNewton<T, R> {
    /// The graph is well formed, and its rows can be counted.
    pub closed spec fn wf(&self) -> bool {
        &&& self.graph.wf()
        &&& row_total(self.graph@) <= usize::MAX
    }

    /// The model of the graph.
    pub closed spec fn graph_model(&self) -> Seq<FactorModel<T, R>> {
        self.graph@
    }

    /// The model of the rules.
    pub closed spec fn params_model(&self) -> ParamsModel<T::M> {
        self.params@
    }

    /// The optimiser of the graph, with the default stopping rules.
    pub fn new(graph: Graph<T, R>) -> (r: Self)
        requires
            graph.wf(),
            row_total(graph@) <= usize::MAX,
        ensures
            r.wf(),
            r.graph_model() == graph@,
            r.params_model() == (ParamsModel {
                max_iterations: 100,
                step_tol: T::M::ratio(1, 1000000),
                error_tol: T::M::ratio(1, 1000000),
            }),
    {
        GaussNewton { graph, params: OptParams::default() }
    }

    /// The optimiser of the graph, with the given stopping rules.
    pub fn with_params(graph: Graph<T, R>, params: OptParams<T>) -> (r: Self)
        requires
            graph.wf(),
            row_total(graph@) <= usize::MAX,
        ensures
            r.wf(),
            r.graph_model() == graph@,
            r.params_model() == params@,
    {
        GaussNewton { graph, params }
    }

    /// The graph.
    pub fn graph(&self) -> (r: &Graph<T, R>)
        requires
            self.wf(),
        ensures
            r.wf(),
            r@ == self.graph_model(),
    {
        &self.graph
    }

    /// One iteration at `values`.
    pub fn step(&self, values: &Values<T>) -> (r: Step<T>)
        requires
            self.wf(),
            values.wf(),
            total_dim(values@) <= usize::MAX,
        ensures
            r@ == gn_step(self.graph_model(), values@),
            r matches Step::Stepped { values: next, .. } ==> next.wf() && total_dim(next@)
                == total_dim(values@),
    {
        reveal(gn_step);
        let before = match self.graph.error(values) {
            Err(e) => {
                return Step::Graph(e);
            },
            Ok(before) => before,
        };
        let sys = match linearize(&self.graph, values) {
            Err(e) => {
                return Step::Graph(e);
            },
            Ok(sys) => sys,
        };
        let delta = match sys.solve(None) {
            None => {
                return Step::LinSolveFailed;
            },
            Some(delta) => delta,
        };
        proof {
            lemma_retract_layout(values@, models(delta@), values@.len());
        }
        let mut next = values.copy();
        next.oplus_mut(&delta);
        match self.graph.error(&next) {
            Err(e) => Step::Graph(e),
            Ok(after) => Step::Stepped { values: next, delta, before, after },
        }
    }

    /// Runs the method from `values` on.
    pub fn optimize(&self, values: Values<T>) -> (r: Result<Values<T>, OptError<T>>)
        requires
            self.wf(),
            values.wf(),
            total_dim(values@) <= usize::MAX,
        ensures
            result_wf(r),
            outcome_of(r) == gn_run(self.graph_model(), self.params_model(), values@, 0),
    {
        let ghost start = values@;
        let mut current = values;
        let mut k: usize = 0;
        while k < self.params.max_iterations
            invariant
                self.wf(),
                start == values@,
                current.wf(),
                total_dim(current@) <= usize::MAX,
                k <= self.params.max_iterations,
                gn_run(self.graph@, self.params@, current@, k as nat) == gn_run(
                    self.graph@,
                    self.params@,
                    start,
                    0,
                ),
            decreases self.params.max_iterations - k,
        {
            match self.step(&current) {
                Step::Graph(e) => {
                    return Err(OptError::Graph(e));
                },
                Step::LinSolveFailed => {
                    return Err(OptError::LinSolveFailed(current));
                },
                Step::Stepped { values: next, delta, before, after } => {
                    if self.params.converged(&delta, &before, &after) {
                        return Ok(next);
                    }
                    current = next;
                },
            }
            k += 1;
        }
        Err(OptError::MaxIterations(current))
    }
}

} // verus!
