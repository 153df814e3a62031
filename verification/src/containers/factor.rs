//! Factors: a residual on the variables under some keys, with a noise model
//! and a robust kernel.

use vstd::prelude::*;
use crate::containers::key::Key;
use crate::containers::values::{has_key, place_of, Values};
use crate::linalg::dense::{norm_squared, norm_squared_model, vscale, vscale_model};
use crate::linalg::diff::{
    checked_total_dim, dual_vars, dual_vars_of, jacobian_of, jacobian_of_duals,
    lemma_var_offset_monotone, values_of, values_of_duals, var_offset, var_total,
};
use crate::linalg::dual::DualModel;
use crate::linalg::matrix::{Grid, Matrix};
use crate::linalg::numeric::{models, Numeric, Scalar};
use crate::noise::any::{Noise, NoiseKind};
use crate::residuals::residual::var_models;
use crate::residuals::traits::{Liftable, Residual};
use crate::robust::{L2, Robust, RobustModel};
use crate::variables::var::{Var, VarModel};

verus! {

/// Why a factor cannot be evaluated on some values.
#[derive(Debug, Clone, Copy, PartialEq, Eq, Structural)]
pub enum GraphError {
    /// No variable stands under this key.
    MissingKey(Key),
    /// The residual cannot be taken at the variables under the keys.
    DimensionMismatch,
    /// The variables under the keys have more dimensions together than the
    /// machine can count.
    TooLarge,
}

/// Why a factor cannot be built.
#[derive(Debug, Clone, Copy, PartialEq, Eq, Structural)]
pub enum FactorError {
    /// The number of keys is not the residual's arity, or the dimension of
    /// the noise model is not that of the residual.
    DimensionMismatch,
}

/// The first of the first `n` keys under which no variable stands.
pub open spec fn first_missing<X>(keys: Seq<Key>, values: Seq<(Key, X)>, n: nat) -> Option<Key>
    decreases n,
{
    if n == 0 {
        None
    } else {
        match first_missing(keys, values, (n - 1) as nat) {
            Some(k) => Some(k),
            None => if has_key(values, keys[n - 1]) {
                None
            } else {
                Some(keys[n - 1])
            },
        }
    }
}

/// The variables under the keys, in the order of the keys.
pub open spec fn vars_under<X>(keys: Seq<Key>, values: Seq<(Key, X)>) -> Seq<X> {
    Seq::new(keys.len(), |i: int| values[place_of(values, keys[i])].1)
}

/// The model of a factor: its keys, its residual, and the models of its
/// noise and its kernel.
pub struct FactorModel<T: Numeric, R> {
    pub keys: Seq<Key>,
    pub residual: R,
    pub noise: NoiseKind<T::M>,
    pub robust: RobustModel<T::M>,
}

/// A factor linearised: the whitened and weighted residual, and for each
/// variable the block of the Jacobian that belongs to it.
pub struct LinearModel<V> {
    pub error: Seq<V>,
    pub blocks: Seq<Grid<V>>,
}

impl<T: Numeric, R: Liftable<T>> FactorModel<T, R> {
    /// There are as many keys as the residual takes variables, and the
    /// noise is of the residual's dimension.
    pub open spec fn wf(self) -> bool {
        &&& self.keys.len() == self.residual.arity_model()
        &&& self.noise.dim() == self.residual.dim_model()
    }

    /// The dimension of the residual.
    pub open spec fn dim(self) -> nat {
        self.residual.dim_model()
    }

    /// The variables that the factor is evaluated at: those under its keys,
    /// where each key has one and the residual can be taken at them.
    pub open spec fn gather(self, values: Seq<(Key, VarModel<T::M>)>) -> Result<
        Seq<VarModel<T::M>>,
        GraphError,
    > {
        match first_missing(self.keys, values, self.keys.len()) {
            Some(k) => Err(GraphError::MissingKey(k)),
            None => if self.residual.accepts_model(vars_under(self.keys, values)) {
                Ok(vars_under(self.keys, values))
            } else {
                Err(GraphError::DimensionMismatch)
            },
        }
    }

    /// The whitened residual at the variables.
    pub open spec fn whitened(self, vars: Seq<VarModel<T::M>>) -> Seq<T::M> {
        self.noise.whiten_vec(self.residual.eval_model(vars))
    }

    /// The whitened residual, scaled by the root of the kernel's weight at
    /// its squared norm.
    pub open spec fn error_at(self, vars: Seq<VarModel<T::M>>) -> Seq<T::M> {
        let e = self.whitened(vars);
        vscale_model(e, self.robust.weight(norm_squared_model(e)).sqrt())
    }

    /// The kernel's loss at the squared norm of the whitened residual.
    pub open spec fn cost_at(self, vars: Seq<VarModel<T::M>>) -> T::M {
        self.robust.loss(norm_squared_model(self.whitened(vars)))
    }

    /// The residual over dual numbers, at the variables with their tangent
    /// directions retracted onto them.
    pub open spec fn dual_eval(self, vars: Seq<VarModel<T::M>>) -> Seq<DualModel<T::M>> {
        self.residual.dual_eval_model(dual_vars(vars))
    }

    /// The factor can be linearised at the variables: their dimensions can
    /// be counted, and the residual over dual numbers can be taken at them.
    pub open spec fn linearizable(self, vars: Seq<VarModel<T::M>>) -> Option<GraphError> {
        if var_total(vars) > usize::MAX {
            Some(GraphError::TooLarge)
        } else if !self.residual.dual_accepts_model(dual_vars(vars)) {
            Some(GraphError::DimensionMismatch)
        } else {
            None
        }
    }

    /// The factor linearised at the variables. The residual's value is the
    /// value of the dual numbers and its Jacobian their derivatives; both
    /// are whitened, and scaled by the root of the kernel's weight at the
    /// squared norm of the whitened value. Block `i` holds the columns of
    /// variable `i`.
    pub open spec fn linearize_at(self, vars: Seq<VarModel<T::M>>) -> LinearModel<T::M> {
        let out = self.dual_eval(vars);
        let e = self.noise.whiten_vec(values_of(out));
        let w = self.robust.weight(norm_squared_model(e)).sqrt();
        let jac = self.noise.whiten_mat(jacobian_of(out, var_total(vars))).scale(w);
        LinearModel {
            error: vscale_model(e, w),
            blocks: Seq::new(
                vars.len(),
                |i: int|
                    jac.block(0, var_offset(vars, i as nat) as int, jac.nrows(), vars[i].dim()),
            ),
        }
    }

    /// The whitened and weighted residual on the values.
    pub open spec fn error(self, values: Seq<(Key, VarModel<T::M>)>) -> Result<
        Seq<T::M>,
        GraphError,
    > {
        match self.gather(values) {
            Ok(vars) => Ok(self.error_at(vars)),
            Err(e) => Err(e),
        }
    }

    /// The kernel's loss on the values.
    pub open spec fn cost(self, values: Seq<(Key, VarModel<T::M>)>) -> Result<T::M, GraphError> {
        match self.gather(values) {
            Ok(vars) => Ok(self.cost_at(vars)),
            Err(e) => Err(e),
        }
    }

    /// The factor linearised on the values.
    pub open spec fn linearize(self, values: Seq<(Key, VarModel<T::M>)>) -> Result<
        LinearModel<T::M>,
        GraphError,
    > {
        match self.gather(values) {
            Ok(vars) => match self.linearizable(vars) {
                Some(e) => Err(e),
                None => Ok(self.linearize_at(vars)),
            },
            Err(e) => Err(e),
        }
    }
}

/// A factor.
pub struct Factor<T, R> {
    keys: Vec<Key>,
    residual: R,
    noise: Noise<T>,
    robust: Robust<T>,
}

/// A factor linearised.
pub struct Linearization<T> {
    pub error: Vec<T>,
    pub blocks: Vec<Matrix<T>>,
}

impl<T: Numeric> Linearization<T> {
    /// Every block is stored whole.
    pub open spec fn wf(&self) -> bool {
        forall|i: int| 0 <= i < self.blocks@.len() ==> (#[trigger] self.blocks@[i]).wf()
    }
}

impl<T: Numeric> View for Linearization<T> {
    type V = LinearModel<T::M>;

    open spec fn view(&self) -> LinearModel<T::M> {
        LinearModel {
            error: models(self.error@),
            blocks: Seq::new(self.blocks@.len(), |i: int| self.blocks@[i]@),
        }
    }
}

impl<T: Numeric, R: Liftable<T>> View for Factor<T, R> {
    type V = FactorModel<T, R>;

    closed spec fn view(&self) -> FactorModel<T, R> {
        FactorModel {
            keys: self.keys@,
            residual: self.residual,
            noise: self.noise@,
            robust: self.robust@,
        }
    }
}

impl<T: Numeric, R: Liftable<T>> Factor<T, R> {
    /// The noise model is stored whole, and the model is well formed.
    pub closed spec fn wf(&self) -> bool {
        &&& self.noise.wf()
        &&& self@.wf()
    }

    /// The factor of the given parts, where they fit together.
    pub fn new(keys: Vec<Key>, residual: R, noise: Noise<T>, robust: Robust<T>) -> (r: Result<
        Self,
        FactorError,
    >)
        requires
            noise.wf(),
        ensures
            r matches Ok(f) ==> f.wf() && f@ == (FactorModel::<T, R> {
                keys: keys@,
                residual: residual,
                noise: noise@,
                robust: robust@,
            }),
            r is Ok <==> (FactorModel::<T, R> {
                keys: keys@,
                residual: residual,
                noise: noise@,
                robust: robust@,
            }).wf(),
            r matches Err(e) ==> e == FactorError::DimensionMismatch,
    {
        if keys.len() != residual.arity() || noise.dim() != residual.dim() {
            return Err(FactorError::DimensionMismatch);
        }
        Ok(Factor { keys, residual, noise, robust })
    }

    /// The dimension of the residual.
    pub fn dim(&self) -> (r: usize)
        ensures
            r == self@.dim(),
    {
        self.residual.dim()
    }

    /// The keys of the variables, in the order in which the residual takes
    /// them.
    pub fn keys(&self) -> (r: &Vec<Key>)
        ensures
            r@ == self@.keys,
    {
        &self.keys
    }

    /// The residual.
    pub fn residual(&self) -> (r: &R)
        ensures
            *r == self@.residual,
    {
        &self.residual
    }

    /// The noise model.
    pub fn noise(&self) -> (r: &Noise<T>)
        ensures
            r@ == self@.noise,
            self.wf() ==> r.wf(),
    {
        &self.noise
    }

    /// The robust kernel.
    pub fn robust(&self) -> (r: &Robust<T>)
        ensures
            r@ == self@.robust,
    {
        &self.robust
    }

    /// The variables that the factor is evaluated at.
    pub fn gather(&self, values: &Values<T>) -> (r: Result<Vec<Var<T>>, GraphError>)
        requires
            self.wf(),
            values.wf(),
        ensures
            r matches Ok(vars) ==> self@.gather(values@) == Ok::<
                Seq<VarModel<T::M>>,
                GraphError,
            >(var_models(vars@)),
            r matches Err(e) ==> self@.gather(values@) == Err::<Seq<VarModel<T::M>>, GraphError>(e),
    {
        let mut vars: Vec<Var<T>> = Vec::new();
        let mut i: usize = 0;
        while i < self.keys.len()
            invariant
                values.wf(),
                i <= self.keys@.len(),
                vars@.len() == i,
                first_missing(self.keys@, values@, i as nat) is None,
                forall|j: int|
                    0 <= j < i ==> (#[trigger] vars@[j])@ == vars_under(self.keys@, values@)[j],
            decreases self.keys@.len() - i,
        {
            match values.get(&self.keys[i]) {
                None => {
                    proof {
                        lemma_first_missing_stays(
                            self.keys@,
                            values@,
                            (i + 1) as nat,
                            self.keys@.len(),
                        );
                    }
                    return Err(GraphError::MissingKey(self.keys[i]));
                },
                Some(v) => {
                    vars.push(v.copy());
                },
            }
            i += 1;
        }
        assert(var_models(vars@) =~= vars_under(self.keys@, values@));
        if self.residual.accepts(&vars) {
            Ok(vars)
        } else {
            Err(GraphError::DimensionMismatch)
        }
    }

    /// The whitened residual at the variables.
    fn whitened(&self, vars: &Vec<Var<T>>) -> (r: Vec<T>)
        requires
            self.wf(),
            self@.residual.accepts_model(var_models(vars@)),
        ensures
            r@.len() == self@.dim(),
            models(r@) == self@.whitened(var_models(vars@)),
    {
        let raw = self.residual.eval(vars);
        self.noise.whiten_vec(&raw)
    }

    /// The whitened residual on the values, scaled by the root of the
    /// kernel's weight at its squared norm.
    pub fn error(&self, values: &Values<T>) -> (r: Result<Vec<T>, GraphError>)
        requires
            self.wf(),
            values.wf(),
        ensures
            r matches Ok(e) ==> self@.error(values@) == Ok::<Seq<T::M>, GraphError>(models(e@))
                && e@.len() == self@.dim(),
            r matches Err(e) ==> self@.error(values@) == Err::<Seq<T::M>, GraphError>(e),
    {
        match self.gather(values) {
            Err(e) => Err(e),
            Ok(vars) => {
                let e = self.whitened(&vars);
                let w = self.robust.weight(&norm_squared(&e)).sqrt();
                Ok(vscale(&e, &w))
            },
        }
    }

    /// The kernel's loss at the squared norm of the whitened residual on
    /// the values.
    pub fn cost(&self, values: &Values<T>) -> (r: Result<T, GraphError>)
        requires
            self.wf(),
            values.wf(),
        ensures
            r matches Ok(c) ==> self@.cost(values@) == Ok::<T::M, GraphError>(c@),
            r matches Err(e) ==> self@.cost(values@) == Err::<T::M, GraphError>(e),
    {
        match self.gather(values) {
            Err(e) => Err(e),
            Ok(vars) => {
                let e = self.whitened(&vars);
                Ok(self.robust.loss(&norm_squared(&e)))
            },
        }
    }

    /// The factor linearised at the variables, where it can be.
    pub fn linearize_at(&self, vars: &Vec<Var<T>>) -> (r: Result<Linearization<T>, GraphError>)
        requires
            self.wf(),
        ensures
            r matches Ok(l) ==> self@.linearizable(var_models(vars@)) is None && l.wf() && l@
                == self@.linearize_at(var_models(vars@)) && l.error@.len() == self@.dim()
                && l.blocks@.len() == vars@.len(),
            r matches Ok(l) ==> forall|j: int|
                0 <= j < vars@.len() ==> (#[trigger] l.blocks@[j])@.nrows() == self@.dim()
                    && l.blocks@[j]@.ncols == var_models(vars@)[j].dim(),
            r matches Err(e) ==> self@.linearizable(var_models(vars@)) == Some(e),
    {
        let ghost ms = var_models(vars@);
        let width: usize = match checked_total_dim(vars) {
            None => {
                return Err(GraphError::TooLarge);
            },
            Some(width) => width,
        };
        let duals = dual_vars_of(vars);
        let lifted = self.residual.lift();
        assert(lifted.accepts_model(var_models(duals@)) == self@.residual.dual_accepts_model(
            dual_vars(ms),
        ));
        if !lifted.accepts(&duals) {
            return Err(GraphError::DimensionMismatch);
        }
        let out = lifted.eval(&duals);
        assert(lifted.eval_model(var_models(duals@)) == self@.residual.dual_eval_model(
            dual_vars(ms),
        ));
        let k: usize = self.residual.dim();
        let value = values_of_duals(&out);
        let jac = jacobian_of_duals(&out, width);
        let e = self.noise.whiten_vec(&value);
        let w = self.robust.weight(&norm_squared(&e)).sqrt();
        let scaled = self.noise.whiten_mat(&jac).scale(&w);
        let ghost model = self@.linearize_at(ms);
        let mut blocks: Vec<Matrix<T>> = Vec::new();
        let mut off: usize = 0;
        let mut i: usize = 0;
        while i < vars.len()
            invariant
                ms == var_models(vars@),
                width == var_total(ms),
                scaled.wf(),
                scaled@.ncols == width,
                scaled@.nrows() == k,
                i <= vars@.len(),
                off == var_offset(ms, i as nat),
                blocks@.len() == i,
                forall|j: int| 0 <= j < i ==> (#[trigger] blocks@[j]).wf(),
                forall|j: int|
                    0 <= j < i ==> (#[trigger] blocks@[j])@.nrows() == k && blocks@[j]@.ncols
                        == ms[j].dim(),
                forall|j: int|
                    0 <= j < i ==> (#[trigger] blocks@[j])@ == scaled@.block(
                        0,
                        var_offset(ms, j as nat) as int,
                        scaled@.nrows(),
                        ms[j].dim(),
                    ),
            decreases vars@.len() - i,
        {
            proof {
                lemma_var_offset_monotone(ms, (i + 1) as nat, ms.len());
            }
            let d: usize = vars[i].dim();
            blocks.push(scaled.block(0, off, k, d));
            off = off + d;
            i += 1;
        }
        let r = Linearization { error: vscale(&e, &w), blocks };
        assert(r@.blocks =~= model.blocks);
        Ok(r)
    }

    /// The factor linearised on the values: the whitened and weighted
    /// residual, and for each key the block of the Jacobian with respect to
    /// the variable under it.
    pub fn linearize(&self, values: &Values<T>) -> (r: Result<Linearization<T>, GraphError>)
        requires
            self.wf(),
            values.wf(),
        ensures
            r matches Ok(l) ==> l.wf() && self@.linearize(values@) == Ok::<
                LinearModel<T::M>,
                GraphError,
            >(l@) && l.error@.len() == self@.dim() && l.blocks@.len() == self@.keys.len(),
            r matches Ok(l) ==> forall|j: int|
                0 <= j < self@.keys.len() ==> has_key(values@, #[trigger] self@.keys[j])
                    && l.blocks@[j]@.nrows() == self@.dim() && l.blocks@[j]@.ncols
                    == values@[place_of(values@, self@.keys[j])].1.dim(),
            r matches Err(e) ==> self@.linearize(values@) == Err::<LinearModel<T::M>, GraphError>(e),
    {
        match self.gather(values) {
            Err(e) => Err(e),
            Ok(vars) => match self.linearize_at(&vars) {
                Err(e) => Err(e),
                Ok(l) => {
                    proof {
                        assert forall|j: int| 0 <= j < self@.keys.len() implies has_key(
                            values@,
                            #[trigger] self@.keys[j],
                        ) && l.blocks@[j]@.nrows() == self@.dim() && l.blocks@[j]@.ncols
                            == values@[place_of(values@, self@.keys[j])].1.dim() by {
                            lemma_none_missing(self@.keys, values@, self@.keys.len(), j);
                            assert(var_models(vars@)[j] == vars_under(self@.keys, values@)[j]);
                        }
                    }
                    Ok(l)
                },
            },
        }
    }
}

/// A factor in the making: the residual and its keys, and the noise model
/// and the robust kernel once they are chosen.
pub struct FactorBuilder<T, R> {
    keys: Vec<Key>,
    residual: R,
    noise: Option<Noise<T>>,
    robust: Option<Robust<T>>,
}

impl<T: Numeric, R: Liftable<T>> FactorBuilder<T, R> {
    /// The noise model, where one is chosen, is stored whole.
    pub closed spec fn wf(&self) -> bool {
        self.noise matches Some(n) ==> n.wf()
    }

    /// The model of the factor that `build` gives: unit noise of the
    /// residual's dimension where no noise model is chosen, and the least
    /// squares kernel where no kernel is chosen.
    pub closed spec fn model(&self) -> FactorModel<T, R> {
        FactorModel {
            keys: self.keys@,
            residual: self.residual,
            noise: match self.noise {
                Some(n) => n@,
                None => NoiseKind::Unit(self.residual.dim_model()),
            },
            robust: match self.robust {
                Some(r) => r@,
                None => RobustModel::L2,
            },
        }
    }

    /// A factor of the residual on the variables under the keys.
    pub fn new(residual: R, keys: Vec<Key>) -> (r: Self)
        ensures
            r.wf(),
            r.model() == (FactorModel::<T, R> {
                keys: keys@,
                residual: residual,
                noise: NoiseKind::Unit(residual.dim_model()),
                robust: RobustModel::L2,
            }),
    {
        FactorBuilder { keys, residual, noise: None, robust: None }
    }

    /// A factor of a residual of one variable.
    pub fn new1(residual: R, first: Key) -> (r: Self)
        ensures
            r.wf(),
            r.model() == (FactorModel::<T, R> {
                keys: seq![first],
                residual: residual,
                noise: NoiseKind::Unit(residual.dim_model()),
                robust: RobustModel::L2,
            }),
    {
        let mut keys: Vec<Key> = Vec::new();
        keys.push(first);
        assert(keys@ =~= seq![first]);
        FactorBuilder { keys, residual, noise: None, robust: None }
    }

    /// A factor of a residual of two variables.
    pub fn new2(residual: R, first: Key, second: Key) -> (r: Self)
        ensures
            r.wf(),
            r.model() == (FactorModel::<T, R> {
                keys: seq![first, second],
                residual: residual,
                noise: NoiseKind::Unit(residual.dim_model()),
                robust: RobustModel::L2,
            }),
    {
        let mut keys: Vec<Key> = Vec::new();
        keys.push(first);
        keys.push(second);
        assert(keys@ =~= seq![first, second]);
        FactorBuilder { keys, residual, noise: None, robust: None }
    }

    /// A factor of a residual of three variables.
    pub fn new3(residual: R, first: Key, second: Key, third: Key) -> (r: Self)
        ensures
            r.wf(),
            r.model() == (FactorModel::<T, R> {
                keys: seq![first, second, third],
                residual: residual,
                noise: NoiseKind::Unit(residual.dim_model()),
                robust: RobustModel::L2,
            }),
    {
        let mut keys: Vec<Key> = Vec::new();
        keys.push(first);
        keys.push(second);
        keys.push(third);
        assert(keys@ =~= seq![first, second, third]);
        FactorBuilder { keys, residual, noise: None, robust: None }
    }

    /// A factor of a residual of four variables.
    pub fn new4(residual: R, first: Key, second: Key, third: Key, fourth: Key) -> (r: Self)
        ensures
            r.wf(),
            r.model() == (FactorModel::<T, R> {
                keys: seq![first, second, third, fourth],
                residual: residual,
                noise: NoiseKind::Unit(residual.dim_model()),
                robust: RobustModel::L2,
            }),
    {
        let mut keys: Vec<Key> = Vec::new();
        keys.push(first);
        keys.push(second);
        keys.push(third);
        keys.push(fourth);
        assert(keys@ =~= seq![first, second, third, fourth]);
        FactorBuilder { keys, residual, noise: None, robust: None }
    }

    /// A factor of a residual of five variables.
    pub fn new5(residual: R, first: Key, second: Key, third: Key, fourth: Key, fifth: Key) -> (r: Self)
        ensures
            r.wf(),
            r.model() == (FactorModel::<T, R> {
                keys: seq![first, second, third, fourth, fifth],
                residual: residual,
                noise: NoiseKind::Unit(residual.dim_model()),
                robust: RobustModel::L2,
            }),
    {
        let mut keys: Vec<Key> = Vec::new();
        keys.push(first);
        keys.push(second);
        keys.push(third);
        keys.push(fourth);
        keys.push(fifth);
        assert(keys@ =~= seq![first, second, third, fourth, fifth]);
        FactorBuilder { keys, residual, noise: None, robust: None }
    }

    /// A factor of a residual of six variables.
    pub fn new6(residual: R, first: Key, second: Key, third: Key, fourth: Key, fifth: Key, sixth: Key) -> (r: Self)
        ensures
            r.wf(),
            r.model() == (FactorModel::<T, R> {
                keys: seq![first, second, third, fourth, fifth, sixth],
                residual: residual,
                noise: NoiseKind::Unit(residual.dim_model()),
                robust: RobustModel::L2,
            }),
    {
        let mut keys: Vec<Key> = Vec::new();
        keys.push(first);
        keys.push(second);
        keys.push(third);
        keys.push(fourth);
        keys.push(fifth);
        keys.push(sixth);
        assert(keys@ =~= seq![first, second, third, fourth, fifth, sixth]);
        FactorBuilder { keys, residual, noise: None, robust: None }
    }

    /// The same factor with the given noise model.
    pub fn noise(self, noise: Noise<T>) -> (r: Self)
        requires
            noise.wf(),
        ensures
            r.wf(),
            r.model() == (FactorModel::<T, R> { noise: noise@, ..self.model() }),
    {
        FactorBuilder {
            keys: self.keys,
            residual: self.residual,
            noise: Some(noise),
            robust: self.robust,
        }
    }

    /// The same factor with the given robust kernel.
    pub fn robust(self, robust: Robust<T>) -> (r: Self)
        requires
            self.wf(),
        ensures
            r.wf(),
            r.model() == (FactorModel::<T, R> { robust: robust@, ..self.model() }),
    {
        FactorBuilder {
            keys: self.keys,
            residual: self.residual,
            noise: self.noise,
            robust: Some(robust),
        }
    }

    /// The factor, where its parts fit together.
    pub fn build(self) -> (r: Result<Factor<T, R>, FactorError>)
        requires
            self.wf(),
        ensures
            r matches Ok(f) ==> f.wf() && f@ == self.model(),
            r is Ok <==> self.model().wf(),
            r matches Err(e) ==> e == FactorError::DimensionMismatch,
    {
        let noise = match self.noise {
            Some(n) => n,
            None => Noise::unit(self.residual.dim()),
        };
        let robust = match self.robust {
            Some(r) => r,
            None => Robust::L2(L2::new()),
        };
        Factor::new(self.keys, self.residual, noise, robust)
    }
}

/// Where none of the first `n` keys is missing, each of them has a variable.
pub proof fn lemma_none_missing<X>(keys: Seq<Key>, values: Seq<(Key, X)>, n: nat, j: int)
    requires
        first_missing(keys, values, n) is None,
        0 <= j < n,
    ensures
        has_key(values, keys[j]),
    decreases n,
{
    if j < n - 1 {
        lemma_none_missing(keys, values, (n - 1) as nat, j);
    }
}

/// A key that is missing among the first `n` is missing among the first `m`
/// for every greater `m`, and it is the first one.
pub proof fn lemma_first_missing_stays<X>(keys: Seq<Key>, values: Seq<(Key, X)>, n: nat, m: nat)
    requires
        n <= m,
        first_missing(keys, values, n) is Some,
    ensures
        first_missing(keys, values, m) == first_missing(keys, values, n),
    decreases m,
{
    if n < m {
        lemma_first_missing_stays(keys, values, n, (m - 1) as nat);
    }
}


} // verus!
