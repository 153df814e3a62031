//! The Levenberg-Marquardt method: a damped step is taken where it lowers
//! the error, and else the damping grows.

use vstd::prelude::*;
use crate::containers::factor::{FactorModel, GraphError};
use crate::containers::graph::{row_total, total_error, Graph};
use crate::containers::key::Key;
use crate::containers::layout::{lemma_same_layout_sym, lemma_total_error_by_layout};
use crate::containers::values::{
    distinct_keys, lemma_retract_layout, lemma_retract_same_layout, lemma_same_layout_trans,
    retract_model, same_layout, total_dim, Values,
};
use crate::linalg::numeric::{max, max_model, models, Numeric, Scalar};
use crate::linear::system::{lemma_assemble_by_layout, linearize, linearize_model};
use crate::optimizers::gauss_newton::outcome_values;
use crate::optimizers::params::{outcome_of, result_wf, OptError, OptParams, Outcome, ParamsModel};
use crate::residuals::residual::CoreResidual;
use crate::residuals::traits::Liftable;
use crate::variables::var::VarModel;

verus! {

/// The model of the method's rules.
pub struct LmParamsModel<V> {
    pub base: ParamsModel<V>,
    pub lambda_init: V,
    pub lambda_max: V,
}

/// The rules of the method: when to stop, the damping to start with, and
/// the damping beyond which the run ends.
pub struct LmParams<T> {
    pub base: OptParams<T>,
    pub lambda_init: T,
    pub lambda_max: T,
}

impl<T: Numeric> View for LmParams<T> {
    type V = LmParamsModel<T::M>;

    open spec fn view(&self) -> LmParamsModel<T::M> {
        LmParamsModel {
            base: self.base@,
            lambda_init: self.lambda_init@,
            lambda_max: self.lambda_max@,
        }
    }
}

impl<T: Numeric> LmParams<T> {
    /// The default stopping rules, the damping `10^-4` to start with, and
    /// the greatest damping `10^10`.
    pub fn default() -> (r: Self)
        ensures
            r@ == (LmParamsModel {
                base: ParamsModel {
                    max_iterations: 100,
                    step_tol: T::M::ratio(1, 1000000),
                    error_tol: T::M::ratio(1, 1000000),
                },
                lambda_init: T::M::ratio(1, 10000),
                lambda_max: T::M::ratio(10000000000, 1),
            }),
    {
        LmParams {
            base: OptParams::default(),
            lambda_init: T::from_ratio(1, 10000),
            lambda_max: T::from_ratio(10000000000, 1),
        }
    }
}

/// What one iteration finds.
pub enum LmStep<V> {
    /// The damped system was solved: the values with the step `delta`
    /// retracted onto them, the error before and after, and the gain.
    Proposed { values: Seq<(Key, VarModel<V>)>, delta: Seq<V>, before: V, after: V, gain: V },
    /// The damped system could not be solved.
    Unsolved,
    /// A factor could not be evaluated.
    Graph(GraphError),
}

/// The gain of a step: by how much the error fell, over by how much the
/// linear model foretold that it would fall.
pub open spec fn gain_model<V: Scalar>(before: V, after: V, now: V, foretold: V) -> V {
    before.sub(after).div(now.sub(foretold))
}

/// The factor by which the damping shrinks after a step of the given gain:
/// `1 - (2 gain - 1)^3`, and at least a third.
pub open spec fn shrink_model<V: Scalar>(gain: V) -> V {
    let t = V::ratio(2, 1).mul(gain).sub(V::ratio(1, 1));
    max_model(V::ratio(1, 3), V::ratio(1, 1).sub(t.mul(t).mul(t)))
}

/// One iteration at `values` with the damping `lambda`: the error, the
/// linear system, its damped step, the error at the values with the step
/// retracted onto them, and the gain.
#[verifier::opaque]
pub open spec fn lm_step<T: Numeric, R: Liftable<T>>(
    graph: Seq<FactorModel<T, R>>,
    values: Seq<(Key, VarModel<T::M>)>,
    lambda: T::M,
) -> LmStep<T::M> {
    match total_error(graph, values) {
        Err(e) => LmStep::Graph(e),
        Ok(before) => match linearize_model(graph, values) {
            Err(e) => LmStep::Graph(e),
            Ok(sys) => match sys.solve(Some(lambda)) {
                None => LmStep::Unsolved,
                Some(delta) => match total_error(graph, retract_model(values, delta)) {
                    Err(e) => LmStep::Graph(e),
                    Ok(after) => LmStep::Proposed {
                        values: retract_model(values, delta),
                        delta,
                        before,
                        after,
                        gain: gain_model(before, after, sys.error_now(), sys.error_after(delta)),
                    },
                },
            },
        },
    }
}

/// The run from iteration `k` on, at `values` with the damping `lambda` and
/// its growth factor `nu`; `unsolved` says that the iteration before could
/// not solve its system.
///
/// The run ends with the iterations run out where `k` has reached their
/// number, and where the damping is beyond its greatest value: as a
/// failure after an unsolved system, and else converged. A step with a gain
/// above zero is taken: the run has converged where the step or the change
/// of the error is small, and else goes on with the damping shrunk and the
/// growth factor two. Any other step is dropped: the run has converged at
/// the values it stands at where the step is small, and else goes on with
/// the damping grown by `nu`, and `nu` doubled, as it does after an
/// unsolved system.
pub open spec fn lm_run<T: Numeric, R: Liftable<T>>(
    graph: Seq<FactorModel<T, R>>,
    params: LmParamsModel<T::M>,
    values: Seq<(Key, VarModel<T::M>)>,
    lambda: T::M,
    nu: T::M,
    unsolved: bool,
    k: nat,
) -> Outcome<T::M>
    decreases params.base.max_iterations - k,
{
    if k >= params.base.max_iterations {
        Outcome::MaxIterations(values)
    } else if params.lambda_max.lt(lambda) {
        if unsolved {
            Outcome::LinSolveFailed(values)
        } else {
            Outcome::Converged(values)
        }
    } else {
        match lm_step(graph, values, lambda) {
            LmStep::Graph(e) => Outcome::Graph(e),
            LmStep::Unsolved => lm_run(
                graph,
                params,
                values,
                lambda.mul(nu),
                nu.mul(T::M::ratio(2, 1)),
                true,
                k + 1,
            ),
            LmStep::Proposed { values: next, delta, before, after, gain } => if T::M::ratio(0, 1).lt(
                gain,
            ) {
                if params.base.converged(delta, before, after) {
                    Outcome::Converged(next)
                } else {
                    lm_run(
                        graph,
                        params,
                        next,
                        lambda.mul(shrink_model(gain)),
                        T::M::ratio(2, 1),
                        false,
                        k + 1,
                    )
                }
            } else {
                if params.base.small_step(delta) {
                    Outcome::Converged(values)
                } else {
                    lm_run(
                        graph,
                        params,
                        values,
                        lambda.mul(nu),
                        nu.mul(T::M::ratio(2, 1)),
                        false,
                        k + 1,
                    )
                }
            },
        }
    }
}

/// However a run ends, the values it ends with hold the keys of the values
/// it started at, in the same order, and under each key a variable of the
/// same kind.
pub proof fn lemma_lm_run_keeps_layout<T: Numeric, R: Liftable<T>>(
    graph: Seq<FactorModel<T, R>>,
    params: LmParamsModel<T::M>,
    values: Seq<(Key, VarModel<T::M>)>,
    lambda: T::M,
    nu: T::M,
    unsolved: bool,
    k: nat,
)
    ensures
        outcome_values(lm_run(graph, params, values, lambda, nu, unsolved, k)) matches Some(v)
            ==> same_layout(v, values),
    decreases params.base.max_iterations - k,
{
    reveal(lm_step);
    assert(same_layout(values, values));
    if k < params.base.max_iterations && !params.lambda_max.lt(lambda) {
        match lm_step(graph, values, lambda) {
            LmStep::Graph(e) => {},
            LmStep::Unsolved => {
                lemma_lm_run_keeps_layout(
                    graph,
                    params,
                    values,
                    lambda.mul(nu),
                    nu.mul(T::M::ratio(2, 1)),
                    true,
                    k + 1,
                );
            },
            LmStep::Proposed { values: next, delta, before, after, gain } => {
                lemma_retract_same_layout(values, delta);
                if T::M::ratio(0, 1).lt(gain) {
                    if !params.base.converged(delta, before, after) {
                        let rest = lm_run(
                            graph,
                            params,
                            next,
                            lambda.mul(shrink_model(gain)),
                            T::M::ratio(2, 1),
                            false,
                            k + 1,
                        );
                        lemma_lm_run_keeps_layout(
                            graph,
                            params,
                            next,
                            lambda.mul(shrink_model(gain)),
                            T::M::ratio(2, 1),
                            false,
                            k + 1,
                        );
                        if outcome_values(rest) is Some {
                            lemma_same_layout_trans(outcome_values(rest)->Some_0, next, values);
                        }
                    }
                } else {
                    if !params.base.small_step(delta) {
                        lemma_lm_run_keeps_layout(
                            graph,
                            params,
                            values,
                            lambda.mul(nu),
                            nu.mul(T::M::ratio(2, 1)),
                            false,
                            k + 1,
                        );
                    }
                }
            },
        }
    }
}

/// With the residuals that the library provides, a run that starts at
/// values on which the total error can be taken and the linear system set
/// up never ends for a factor that cannot be evaluated.
pub proof fn lemma_lm_run_evaluates<T: Numeric>(
    graph: Seq<FactorModel<T, CoreResidual<T>>>,
    params: LmParamsModel<T::M>,
    values: Seq<(Key, VarModel<T::M>)>,
    lambda: T::M,
    nu: T::M,
    unsolved: bool,
    k: nat,
)
    requires
        distinct_keys(values),
        total_error(graph, values) is Ok,
        linearize_model(graph, values) is Ok,
    ensures
        !(lm_run(graph, params, values, lambda, nu, unsolved, k) is Graph),
    decreases params.base.max_iterations - k,
{
    reveal(lm_step);
    if k < params.base.max_iterations && !params.lambda_max.lt(lambda) {
        let sys = linearize_model(graph, values)->Ok_0;
        let grown = lambda.mul(nu);
        let doubled = nu.mul(T::M::ratio(2, 1));
        match sys.solve(Some(lambda)) {
            None => {
                lemma_lm_run_evaluates(graph, params, values, grown, doubled, true, k + 1);
            },
            Some(delta) => {
                let next = retract_model(values, delta);
                lemma_retract_same_layout(values, delta);
                lemma_same_layout_sym::<T>(next, values);
                lemma_total_error_by_layout(graph, values, next, graph.len());
                lemma_assemble_by_layout(graph, values, next, graph.len());
                let before = total_error(graph, values)->Ok_0;
                let after = total_error(graph, next)->Ok_0;
                let gain = gain_model(before, after, sys.error_now(), sys.error_after(delta));
                if T::M::ratio(0, 1).lt(gain) {
                    if !params.base.converged(delta, before, after) {
                        lemma_lm_run_evaluates(
                            graph,
                            params,
                            next,
                            lambda.mul(shrink_model(gain)),
                            T::M::ratio(2, 1),
                            false,
                            k + 1,
                        );
                    }
                } else {
                    if !params.base.small_step(delta) {
                        lemma_lm_run_evaluates(graph, params, values, grown, doubled, false, k + 1);
                    }
                }
            },
        }
    }
}

/// A run never takes a step whose gain is not above zero: where the first
/// iteration proposes such a step and the step is not small, the run goes
/// on from the values it stands at, with the damping grown.
pub proof fn lemma_lm_rejects_without_gain<T: Numeric, R: Liftable<T>>(
    graph: Seq<FactorModel<T, R>>,
    params: LmParamsModel<T::M>,
    values: Seq<(Key, VarModel<T::M>)>,
    lambda: T::M,
    nu: T::M,
    unsolved: bool,
    k: nat,
)
    requires
        k < params.base.max_iterations,
        !params.lambda_max.lt(lambda),
        lm_step(graph, values, lambda) matches LmStep::Proposed { delta, gain, .. } && !T::M::ratio(
            0,
            1,
        ).lt(gain) && !params.base.small_step(delta),
    ensures
        lm_run(graph, params, values, lambda, nu, unsolved, k) == lm_run(
            graph,
            params,
            values,
            lambda.mul(nu),
            nu.mul(T::M::ratio(2, 1)),
            false,
            k + 1,
        ),
{
}

/// What one iteration found.
pub enum Proposal<T> {
    /// The damped system was solved.
    Proposed { values: Values<T>, delta: Vec<T>, before: T, after: T, gain: T },
    /// The damped system could not be solved.
    Unsolved,
    /// A factor could not be evaluated.
    Graph(GraphError),
}

impl<T: Numeric> View for Proposal<T> {
    type V = LmStep<T::M>;

    open spec fn view(&self) -> LmStep<T::M> {
        match self {
            Proposal::Proposed { values, delta, before, after, gain } => LmStep::Proposed {
                values: values@,
                delta: models(delta@),
                before: before@,
                after: after@,
                gain: gain@,
            },
            Proposal::Unsolved => LmStep::Unsolved,
            Proposal::Graph(e) => LmStep::Graph(*e),
        }
    }
}

/// The factor by which the damping shrinks after a step of the given gain.
pub fn shrink<T: Numeric>(gain: &T) -> (r: T)
    ensures
        r@ == shrink_model(gain@),
{
    let unit = T::from_ratio(1, 1);
    let t = T::from_ratio(2, 1).mul(gain).sub(&unit);
    max(&T::from_ratio(1, 3), &unit.sub(&t.mul(&t).mul(&t)))
}

/// The Levenberg-Marquardt optimiser of a graph.
pub struct LevenMarquardt<T, R> {
    graph: Graph<T, R>,
    params: LmParams<T>,
}

impl<T: Numeric, R: Liftable<T>> LevenMarquardt<T, R> {
    /// The graph is well formed, and its rows can be counted.
    pub closed spec fn wf(&self) -> bool {
        &&& self.graph.wf()
        &&& row_total(self.graph@) <= usize::MAX
    }

    /// The model of the graph.
    pub closed spec fn graph_model(&self) -> Seq<FactorModel<T, R>> {
        self.graph@
    }

    /// The model of the rules.
    pub closed spec fn params_model(&self) -> LmParamsModel<T::M> {
        self.params@
    }

    /// The optimiser of the graph, with the default rules.
    pub fn new(graph: Graph<T, R>) -> (r: Self)
        requires
            graph.wf(),
            row_total(graph@) <= usize::MAX,
        ensures
            r.wf(),
            r.graph_model() == graph@,
            r.params_model() == (LmParamsModel {
                base: ParamsModel {
                    max_iterations: 100,
                    step_tol: T::M::ratio(1, 1000000),
                    error_tol: T::M::ratio(1, 1000000),
                },
                lambda_init: T::M::ratio(1, 10000),
                lambda_max: T::M::ratio(10000000000, 1),
            }),
    {
        LevenMarquardt { graph, params: LmParams::default() }
    }

    /// The optimiser of the graph, with the given rules.
    pub fn with_params(graph: Graph<T, R>, params: LmParams<T>) -> (r: Self)
        requires
            graph.wf(),
            row_total(graph@) <= usize::MAX,
        ensures
            r.wf(),
            r.graph_model() == graph@,
            r.params_model() == params@,
    {
        LevenMarquardt { graph, params }
    }

    /// The graph.
    pub fn graph(&self) -> (r: &Graph<T, R>)
        requires
            self.wf(),
        ensures
            r.wf(),
            r@ == self.graph_model(),
    {
        &self.graph
    }

    /// One iteration at `values` with the damping `lambda`.
    pub fn step(&self, values: &Values<T>, lambda: &T) -> (r: Proposal<T>)
        requires
            self.wf(),
            values.wf(),
            total_dim(values@) <= usize::MAX,
        ensures
            r@ == lm_step(self.graph_model(), values@, lambda@),
            r matches Proposal::Proposed { values: next, .. } ==> next.wf() && total_dim(next@)
                == total_dim(values@),
    {
        reveal(lm_step);
        let before = match self.graph.error(values) {
            Err(e) => {
                return Proposal::Graph(e);
            },
            Ok(before) => before,
        };
        let sys = match linearize(&self.graph, values) {
            Err(e) => {
                return Proposal::Graph(e);
            },
            Ok(sys) => sys,
        };
        let delta = match sys.solve(Some(lambda)) {
            None => {
                return Proposal::Unsolved;
            },
            Some(delta) => delta,
        };
        proof {
            lemma_retract_layout(values@, models(delta@), values@.len());
        }
        let mut next = values.copy();
        next.oplus_mut(&delta);
        match self.graph.error(&next) {
            Err(e) => Proposal::Graph(e),
            Ok(after) => {
                let gain = before.sub(&after).div(&sys.error_now().sub(&sys.error_after(&delta)));
                Proposal::Proposed { values: next, delta, before, after, gain }
            },
        }
    }

    /// Runs the method from `values` on.
    pub fn optimize(&self, values: Values<T>) -> (r: Result<Values<T>, OptError<T>>)
        requires
            self.wf(),
            values.wf(),
            total_dim(values@) <= usize::MAX,
        ensures
            result_wf(r),
            outcome_of(r) == lm_run(
                self.graph_model(),
                self.params_model(),
                values@,
                self.params_model().lambda_init,
                T::M::ratio(2, 1),
                false,
                0,
            ),
    {
        let ghost start = values@;
        let mut current = values;
        let mut lambda = self.params.lambda_init.copy();
        let mut nu = T::from_ratio(2, 1);
        let mut unsolved = false;
        let mut k: usize = 0;
        while k < self.params.base.max_iterations
            invariant
                self.wf(),
                start == values@,
                current.wf(),
                total_dim(current@) <= usize::MAX,
                k <= self.params.base.max_iterations,
                lm_run(self.graph@, self.params@, current@, lambda@, nu@, unsolved, k as nat)
                    == lm_run(
                    self.graph@,
                    self.params@,
                    start,
                    self.params@.lambda_init,
                    T::M::ratio(2, 1),
                    false,
                    0,
                ),
            decreases self.params.base.max_iterations - k,
        {
            if self.params.lambda_max.lt(&lambda) {
                if unsolved {
                    return Err(OptError::LinSolveFailed(current));
                } else {
                    return Ok(current);
                }
            }
            match self.step(&current, &lambda) {
                Proposal::Graph(e) => {
                    return Err(OptError::Graph(e));
                },
                Proposal::Unsolved => {
                    lambda = lambda.mul(&nu);
                    nu = nu.mul(&T::from_ratio(2, 1));
                    unsolved = true;
                },
                Proposal::Proposed { values: next, delta, before, after, gain } => {
                    if T::from_ratio(0, 1).lt(&gain) {
                        if self.params.base.converged(&delta, &before, &after) {
                            return Ok(next);
                        }
                        current = next;
                        lambda = lambda.mul(&shrink(&gain));
                        nu = T::from_ratio(2, 1);
                        unsolved = false;
                    } else {
                        if self.params.base.small_step(&delta) {
                            return Ok(current);
                        }
                        lambda = lambda.mul(&nu);
                        nu = nu.mul(&T::from_ratio(2, 1));
                        unsolved = false;
                    }
                },
            }
            k += 1;
        }
        Err(OptError::MaxIterations(current))
    }
}

} // verus!
