//! A variable of any of the kinds that the library knows.

use vstd::prelude::*;
use crate::linalg::dense::{vadd, vadd_model, vcopy, vneg, vneg_model};
use crate::linalg::dual::{tangent_seeds, Dual, DualModel};
use crate::linalg::numeric::{models, Numeric, Scalar};
use crate::variables::{se2, se3, so2, so3, vector};
use crate::variables::se2::SE2;
use crate::variables::se3::SE3;
use crate::variables::so2::SO2;
use crate::variables::so3::SO3;
use crate::variables::traits::{Variable, VariableSafe};

verus! {

/// The model of a variable of any kind. A vector's kind includes its
/// length.
pub enum VarModel<V> {
    SO2(SO2<V>),
    SE2(SE2<V>),
    SO3(SO3<V>),
    SE3(SE3<V>),
    Vector(Seq<V>),
}

impl<V: Scalar> VarModel<V> {
    /// The dimension of the tangent space.
    pub open spec fn dim(self) -> nat {
        match self {
            VarModel::SO2(_) => 1,
            VarModel::SE2(_) => 3,
            VarModel::SO3(_) => 3,
            VarModel::SE3(_) => 6,
            VarModel::Vector(x) => x.len(),
        }
    }

    /// Both are elements of one group.
    pub open spec fn same_kind(self, other: Self) -> bool {
        match (self, other) {
            (VarModel::SO2(_), VarModel::SO2(_)) => true,
            (VarModel::SE2(_), VarModel::SE2(_)) => true,
            (VarModel::SO3(_), VarModel::SO3(_)) => true,
            (VarModel::SE3(_), VarModel::SE3(_)) => true,
            (VarModel::Vector(x), VarModel::Vector(y)) => x.len() == y.len(),
            _ => false,
        }
    }

    /// The inverse of the element.
    pub open spec fn inverse(self) -> Self {
        match self {
            VarModel::SO2(x) => VarModel::SO2(so2::inverse_model(x)),
            VarModel::SE2(x) => VarModel::SE2(se2::inverse_model(x)),
            VarModel::SO3(x) => VarModel::SO3(so3::inverse_model(x)),
            VarModel::SE3(x) => VarModel::SE3(se3::inverse_model(x)),
            VarModel::Vector(x) => VarModel::Vector(vneg_model(x)),
        }
    }

    /// The composition `self * other` of two elements of one group.
    pub open spec fn compose(self, other: Self) -> Self {
        match (self, other) {
            (VarModel::SO2(x), VarModel::SO2(y)) => VarModel::SO2(so2::compose_model(x, y)),
            (VarModel::SE2(x), VarModel::SE2(y)) => VarModel::SE2(se2::compose_model(x, y)),
            (VarModel::SO3(x), VarModel::SO3(y)) => VarModel::SO3(so3::compose_model(x, y)),
            (VarModel::SE3(x), VarModel::SE3(y)) => VarModel::SE3(se3::compose_model(x, y)),
            (VarModel::Vector(x), VarModel::Vector(y)) => VarModel::Vector(vadd_model(x, y)),
            _ => self,
        }
    }

    /// The exponential of `xi` in the group of `self`.
    pub open spec fn exp_like(self, xi: Seq<V>) -> Self {
        match self {
            VarModel::SO2(_) => VarModel::SO2(so2::exp_model(xi)),
            VarModel::SE2(_) => VarModel::SE2(se2::exp_model(xi)),
            VarModel::SO3(_) => VarModel::SO3(so3::exp_model(xi)),
            VarModel::SE3(_) => VarModel::SE3(se3::exp_model(xi)),
            VarModel::Vector(_) => VarModel::Vector(xi),
        }
    }

    /// The logarithm map, from the group to the tangent space.
    pub open spec fn log(self) -> Seq<V> {
        match self {
            VarModel::SO2(x) => so2::log_model(x),
            VarModel::SE2(x) => se2::log_model(x),
            VarModel::SO3(x) => so3::log_model(x),
            VarModel::SE3(x) => se3::log_model(x),
            VarModel::Vector(x) => x,
        }
    }

    /// The retraction `self * exp(xi)`.
    pub open spec fn oplus(self, xi: Seq<V>) -> Self {
        self.compose(self.exp_like(xi))
    }

    /// The difference `log(y^-1 * self)` in the tangent space.
    pub open spec fn ominus(self, y: Self) -> Seq<V> {
        y.inverse().compose(self).log()
    }

    /// What is left of `self` when `other` is taken off its front:
    /// `other^-1 * self`.
    pub open spec fn minus(self, other: Self) -> Self {
        other.inverse().compose(self)
    }

    /// The same element over dual numbers, as a constant.
    pub open spec fn lift(self) -> VarModel<DualModel<V>> {
        match self {
            VarModel::SO2(x) => VarModel::SO2(so2::lift_model(x)),
            VarModel::SE2(x) => VarModel::SE2(se2::lift_model(x)),
            VarModel::SO3(x) => VarModel::SO3(so3::lift_model(x)),
            VarModel::SE3(x) => VarModel::SE3(se3::lift_model(x)),
            VarModel::Vector(x) => VarModel::Vector(vector::lift_model(x)),
        }
    }

    /// The element with the tangent directions `idx`, `idx + 1`, .. among
    /// `n` retracted onto it.
    pub open spec fn dual(self, idx: int, n: nat) -> VarModel<DualModel<V>> {
        match self {
            VarModel::SO2(x) => VarModel::SO2(so2::dual_model(x, idx, n)),
            VarModel::SE2(x) => VarModel::SE2(se2::dual_model(x, idx, n)),
            VarModel::SO3(x) => VarModel::SO3(so3::dual_model(x, idx, n)),
            VarModel::SE3(x) => VarModel::SE3(se3::dual_model(x, idx, n)),
            VarModel::Vector(x) => VarModel::Vector(vector::dual_model(x, idx, n)),
        }
    }
}

/// A retraction leaves the kind of the element, and so its dimension, as
/// it is.
pub proof fn lemma_oplus_same_kind<V: Scalar>(x: VarModel<V>, xi: Seq<V>)
    ensures
        x.oplus(xi).same_kind(x),
        x.oplus(xi).dim() == x.dim(),
{
}

/// On vectors the logarithm undoes the exponential exactly.
pub proof fn lemma_vector_log_exp<V: Scalar>(x: Seq<V>, xi: Seq<V>)
    ensures
        VarModel::Vector(x).exp_like(xi).log() == xi,
{
}

/// A variable of any kind.
pub enum Var<T> {
    SO2(SO2<T>),
    SE2(SE2<T>),
    SO3(SO3<T>),
    SE3(SE3<T>),
    Vector(Vec<T>),
}

impl<T: Numeric> View for Var<T> {
    type V = VarModel<T::M>;

    open spec fn view(&self) -> VarModel<T::M> {
        match self {
            Var::SO2(x) => VarModel::SO2(x@),
            Var::SE2(x) => VarModel::SE2(x@),
            Var::SO3(x) => VarModel::SO3(x@),
            Var::SE3(x) => VarModel::SE3(x@),
            Var::Vector(x) => VarModel::Vector(models(x@)),
        }
    }
}

impl<T: Numeric> Var<T> {
    /// The dimension of the tangent space.
    pub fn dim(&self) -> (r: usize)
        ensures
            r == self@.dim(),
    {
        match self {
            Var::SO2(_) => 1,
            Var::SE2(_) => 3,
            Var::SO3(_) => 3,
            Var::SE3(_) => 6,
            Var::Vector(x) => x.len(),
        }
    }

    /// Whether both are elements of one group.
    pub fn same_kind(&self, other: &Self) -> (r: bool)
        ensures
            r == self@.same_kind(other@),
    {
        match (self, other) {
            (Var::SO2(_), Var::SO2(_)) => true,
            (Var::SE2(_), Var::SE2(_)) => true,
            (Var::SO3(_), Var::SO3(_)) => true,
            (Var::SE3(_), Var::SE3(_)) => true,
            (Var::Vector(x), Var::Vector(y)) => x.len() == y.len(),
            _ => false,
        }
    }

    /// A copy.
    pub fn copy(&self) -> (r: Self)
        ensures
            r@ == self@,
    {
        match self {
            Var::SO2(x) => Var::SO2(x.copy()),
            Var::SE2(x) => Var::SE2(x.copy()),
            Var::SO3(x) => Var::SO3(x.copy()),
            Var::SE3(x) => Var::SE3(x.copy()),
            Var::Vector(x) => Var::Vector(vcopy(x)),
        }
    }

    /// The inverse of the element.
    pub fn inverse(&self) -> (r: Self)
        ensures
            r@ == self@.inverse(),
    {
        match self {
            Var::SO2(x) => Var::SO2(x.inverse()),
            Var::SE2(x) => Var::SE2(x.inverse()),
            Var::SO3(x) => Var::SO3(x.inverse()),
            Var::SE3(x) => Var::SE3(x.inverse()),
            Var::Vector(x) => Var::Vector(vneg(x)),
        }
    }

    /// The composition `self * other` of two elements of one group.
    pub fn compose(&self, other: &Self) -> (r: Self)
        requires
            self@.same_kind(other@),
        ensures
            r@ == self@.compose(other@),
    {
        match (self, other) {
            (Var::SO2(x), Var::SO2(y)) => Var::SO2(x.compose(y)),
            (Var::SE2(x), Var::SE2(y)) => Var::SE2(x.compose(y)),
            (Var::SO3(x), Var::SO3(y)) => Var::SO3(x.compose(y)),
            (Var::SE3(x), Var::SE3(y)) => Var::SE3(x.compose(y)),
            (Var::Vector(x), Var::Vector(y)) => Var::Vector(vadd(x, y)),
            _ => self.copy(),
        }
    }

    /// The exponential of `xi` in the group of `self`.
    pub fn exp_like(&self, xi: &Vec<T>) -> (r: Self)
        requires
            xi@.len() == self@.dim(),
        ensures
            r@ == self@.exp_like(models(xi@)),
    {
        match self {
            Var::SO2(_) => Var::SO2(SO2::exp(xi)),
            Var::SE2(_) => Var::SE2(SE2::exp(xi)),
            Var::SO3(_) => Var::SO3(SO3::exp(xi)),
            Var::SE3(_) => Var::SE3(SE3::exp(xi)),
            Var::Vector(_) => Var::Vector(vcopy(xi)),
        }
    }

    /// The logarithm map, from the group to the tangent space.
    pub fn log(&self) -> (r: Vec<T>)
        ensures
            r@.len() == self@.dim(),
            models(r@) == self@.log(),
    {
        match self {
            Var::SO2(x) => x.log(),
            Var::SE2(x) => x.log(),
            Var::SO3(x) => x.log(),
            Var::SE3(x) => x.log(),
            Var::Vector(x) => vcopy(x),
        }
    }

    /// The retraction `self * exp(xi)`.
    pub fn oplus(&self, xi: &Vec<T>) -> (r: Self)
        requires
            xi@.len() == self@.dim(),
        ensures
            r@ == self@.oplus(models(xi@)),
            r@.same_kind(self@),
    {
        let step = self.exp_like(xi);
        self.compose(&step)
    }

    /// The difference `log(y^-1 * self)` in the tangent space.
    pub fn ominus(&self, y: &Self) -> (r: Vec<T>)
        requires
            self@.same_kind(y@),
        ensures
            r@.len() == self@.dim(),
            models(r@) == self@.ominus(y@),
    {
        y.inverse().compose(self).log()
    }

    /// What is left of `self` when `other` is taken off its front:
    /// `other^-1 * self`.
    pub fn minus(&self, other: &Self) -> (r: Self)
        requires
            self@.same_kind(other@),
        ensures
            r@ == self@.minus(other@),
            r@.same_kind(self@),
    {
        other.inverse().compose(self)
    }

    /// The same element over dual numbers, as a constant.
    pub fn lift(&self) -> (r: Var<Dual<T>>)
        ensures
            r@ == self@.lift(),
    {
        match self {
            Var::SO2(x) => Var::SO2(x.lift()),
            Var::SE2(x) => Var::SE2(x.lift()),
            Var::SO3(x) => Var::SO3(x.lift()),
            Var::SE3(x) => Var::SE3(x.lift()),
            Var::Vector(x) => Var::Vector(vector::lift_vec(x)),
        }
    }

    /// The element with the tangent directions `idx`, `idx + 1`, .. among
    /// `n` retracted onto it.
    pub fn dual(&self, idx: usize, n: usize) -> (r: Var<Dual<T>>)
        requires
            idx + self@.dim() <= n,
        ensures
            r@ == self@.dual(idx as int, n as nat),
    {
        match self {
            Var::SO2(x) => Var::SO2(x.dual(idx, n)),
            Var::SE2(x) => Var::SE2(x.dual(idx, n)),
            Var::SO3(x) => Var::SO3(x.dual(idx, n)),
            Var::SE3(x) => Var::SE3(x.dual(idx, n)),
            Var::Vector(x) => Var::Vector(vadd(&vector::lift_vec(x), &tangent_seeds::<T>(x.len(), idx, n))),
        }
    }
}

impl<T: Numeric> VariableSafe for Var<T> {
    type T = T;

    open spec fn dim_model(&self) -> nat {
        self@.dim()
    }

    open spec fn oplus_model(&self, delta: Seq<T::M>) -> VarModel<T::M> {
        self@.oplus(delta)
    }

    fn clone_box(&self) -> (r: Self) {
        self.copy()
    }

    fn dim(&self) -> (r: usize) {
        Var::dim(self)
    }

    fn oplus_mut(&mut self, delta: &Vec<T>) {
        let next = self.oplus(delta);
        *self = next;
    }
}

} // verus!
