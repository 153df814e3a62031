//! A residual of either kind.

use vstd::prelude::*;
use crate::linalg::diff::{dual_vars, lemma_dual_same_kind, var_offset, var_total};
use crate::linalg::dual::{Dual, DualModel};
use crate::linalg::numeric::{models, Numeric, Scalar};
use crate::residuals::between::BetweenResidual;
use crate::residuals::prior::PriorResidual;
use crate::residuals::traits::{Liftable, Residual};
use crate::variables::var::{Var, VarModel};

verus! {

/// The model of a residual: its kind, and the value it compares with.
pub enum ResidualModel<V> {
    Prior(VarModel<V>),
    Between(VarModel<V>),
}

/// The models of a sequence of variables.
pub open spec fn var_models<T: Numeric>(vars: Seq<Var<T>>) -> Seq<VarModel<T::M>> {
    Seq::new(vars.len(), |i: int| vars[i]@)
}

impl<V: Scalar> ResidualModel<V> {
    /// The number of variables that the residual takes.
    pub open spec fn arity(self) -> nat {
        match self {
            ResidualModel::Prior(_) => 1,
            ResidualModel::Between(_) => 2,
        }
    }

    /// The value that the variables are compared with.
    pub open spec fn target(self) -> VarModel<V> {
        match self {
            ResidualModel::Prior(p) => p,
            ResidualModel::Between(d) => d,
        }
    }

    /// The dimension of the residual.
    pub open spec fn dim(self) -> nat {
        self.target().dim()
    }

    /// There are as many variables as the residual takes, each of the
    /// residual's kind.
    pub open spec fn accepts(self, vars: Seq<VarModel<V>>) -> bool {
        &&& vars.len() == self.arity()
        &&& forall|i: int| 0 <= i < vars.len() ==> (#[trigger] vars[i]).same_kind(self.target())
    }

    /// The residual at the given variables.
    pub open spec fn eval(self, vars: Seq<VarModel<V>>) -> Seq<V> {
        match self {
            ResidualModel::Prior(p) => vars[0].ominus(p),
            ResidualModel::Between(d) => vars[1].minus(vars[0]).ominus(d),
        }
    }

    /// The same residual over dual numbers.
    pub open spec fn lift(self) -> ResidualModel<DualModel<V>> {
        match self {
            ResidualModel::Prior(p) => ResidualModel::Prior(p.lift()),
            ResidualModel::Between(d) => ResidualModel::Between(d.lift()),
        }
    }
}

/// Where a residual can be taken at some variables, the residual over dual
/// numbers can be taken at them with their tangent directions retracted
/// onto them: linearising does not fail where evaluating succeeds.
pub proof fn lemma_lifted_accepts<V: Scalar>(residual: ResidualModel<V>, vars: Seq<VarModel<V>>)
    requires
        residual.accepts(vars),
    ensures
        residual.lift().accepts(dual_vars(vars)),
{
    assert forall|i: int| 0 <= i < vars.len() implies (#[trigger] dual_vars(vars)[i]).same_kind(
        residual.lift().target(),
    ) by {
        assert(vars[i].same_kind(residual.target()));
        lemma_dual_same_kind(
            vars[i],
            residual.target(),
            var_offset(vars, i as nat) as int,
            var_total(vars),
        );
    }
}

/// A residual of either of the kinds that the library provides.
pub enum CoreResidual<T> {
    Prior(PriorResidual<T>),
    Between(BetweenResidual<T>),
}

impl<T: Numeric> View for CoreResidual<T> {
    type V = ResidualModel<T::M>;

    open spec fn view(&self) -> ResidualModel<T::M> {
        match self {
            CoreResidual::Prior(p) => ResidualModel::Prior(p.prior@),
            CoreResidual::Between(b) => ResidualModel::Between(b.delta@),
        }
    }
}

impl<T: Numeric> CoreResidual<T> {
    /// The number of variables that the residual takes.
    pub fn arity(&self) -> (r: usize)
        ensures
            r == self@.arity(),
    {
        match self {
            CoreResidual::Prior(_) => 1,
            CoreResidual::Between(_) => 2,
        }
    }

    /// The dimension of the residual.
    pub fn dim(&self) -> (r: usize)
        ensures
            r == self@.dim(),
    {
        match self {
            CoreResidual::Prior(p) => p.dim(),
            CoreResidual::Between(b) => b.dim(),
        }
    }

    /// Whether the residual can be taken at these variables.
    pub fn accepts(&self, vars: &Vec<Var<T>>) -> (r: bool)
        ensures
            r == self@.accepts(var_models(vars@)),
    {
        if vars.len() != self.arity() {
            return false;
        }
        let mut i: usize = 0;
        while i < vars.len()
            invariant
                i <= vars@.len(),
                vars@.len() == self@.arity(),
                forall|j: int|
                    0 <= j < i ==> (#[trigger] var_models(vars@)[j]).same_kind(self@.target()),
            decreases vars@.len() - i,
        {
            let same = match self {
                CoreResidual::Prior(p) => vars[i].same_kind(&p.prior),
                CoreResidual::Between(b) => vars[i].same_kind(&b.delta),
            };
            if !same {
                assert(!var_models(vars@)[i as int].same_kind(self@.target()));
                return false;
            }
            i += 1;
        }
        true
    }

    /// The residual at the given variables.
    pub fn eval(&self, vars: &Vec<Var<T>>) -> (r: Vec<T>)
        requires
            self@.accepts(var_models(vars@)),
        ensures
            r@.len() == self@.dim(),
            models(r@) == self@.eval(var_models(vars@)),
    {
        assert(forall|i: int|
            0 <= i < vars@.len() ==> (#[trigger] var_models(vars@)[i]).same_kind(self@.target()));
        match self {
            CoreResidual::Prior(p) => {
                assert(var_models(vars@)[0].same_kind(self@.target()));
                p.residual1(&vars[0])
            },
            CoreResidual::Between(b) => {
                assert(var_models(vars@)[0].same_kind(self@.target()));
                assert(var_models(vars@)[1].same_kind(self@.target()));
                b.residual2(&vars[0], &vars[1])
            },
        }
    }

    /// The same residual over dual numbers.
    pub fn lift(&self) -> (r: CoreResidual<Dual<T>>)
        ensures
            r@ == self@.lift(),
    {
        match self {
            CoreResidual::Prior(p) => CoreResidual::Prior(p.lift()),
            CoreResidual::Between(b) => CoreResidual::Between(b.lift()),
        }
    }

    /// A copy.
    pub fn copy(&self) -> (r: Self)
        ensures
            r@ == self@,
    {
        match self {
            CoreResidual::Prior(p) => CoreResidual::Prior(p.copy()),
            CoreResidual::Between(b) => CoreResidual::Between(b.copy()),
        }
    }
}

impl<T: Numeric> Residual<T> for CoreResidual<T> {
    open spec fn arity_model(&self) -> nat {
        self@.arity()
    }

    open spec fn dim_model(&self) -> nat {
        self@.dim()
    }

    open spec fn accepts_model(&self, vars: Seq<VarModel<T::M>>) -> bool {
        self@.accepts(vars)
    }

    open spec fn eval_model(&self, vars: Seq<VarModel<T::M>>) -> Seq<T::M> {
        self@.eval(vars)
    }

    fn arity(&self) -> (r: usize) {
        CoreResidual::arity(self)
    }

    fn dim(&self) -> (r: usize) {
        CoreResidual::dim(self)
    }

    fn accepts(&self, vars: &Vec<Var<T>>) -> (r: bool) {
        CoreResidual::accepts(self, vars)
    }

    fn eval(&self, vars: &Vec<Var<T>>) -> (r: Vec<T>) {
        CoreResidual::eval(self, vars)
    }
}

impl<T: Numeric> Liftable<T> for CoreResidual<T> {
    type Lifted = CoreResidual<Dual<T>>;

    open spec fn dual_accepts_model(&self, vars: Seq<VarModel<DualModel<T::M>>>) -> bool {
        self@.lift().accepts(vars)
    }

    open spec fn dual_eval_model(&self, vars: Seq<VarModel<DualModel<T::M>>>) -> Seq<
        DualModel<T::M>,
    > {
        self@.lift().eval(vars)
    }

    fn lift(&self) -> (r: CoreResidual<Dual<T>>) {
        CoreResidual::lift(self)
    }
}

} // verus!
