//! What every variable provides.

use vstd::prelude::*;
use crate::linalg::matrix::{Grid, Matrix};
use crate::linalg::numeric::{models, Numeric};

verus! {

/// An element of a Lie group whose tangent space has `dim_model()`
/// dimensions.
pub trait Variable: Sized + View {
    /// The scalar type.
    type T: Numeric;

    /// The dimension of the tangent space.
    spec fn dim_model() -> nat;

    /// The value is stored whole.
    spec fn wf(&self) -> bool;

    spec fn identity_model() -> Self::V;

    spec fn inverse_model(x: Self::V) -> Self::V;

    spec fn compose_model(x: Self::V, y: Self::V) -> Self::V;

    spec fn exp_model(xi: Seq<<Self::T as Numeric>::M>) -> Self::V;

    spec fn log_model(x: Self::V) -> Seq<<Self::T as Numeric>::M>;

    /// The identity element of the group.
    fn identity() -> (r: Self)
        ensures
            r.wf(),
            r@ == Self::identity_model(),
    ;

    /// The inverse of the element.
    fn inverse(&self) -> (r: Self)
        requires
            self.wf(),
        ensures
            r.wf(),
            r@ == Self::inverse_model(self@),
    ;

    /// The composition `self * other`.
    fn compose(&self, other: &Self) -> (r: Self)
        requires
            self.wf(),
            other.wf(),
        ensures
            r.wf(),
            r@ == Self::compose_model(self@, other@),
    ;

    /// The exponential map, from the tangent space to the group.
    fn exp(xi: &Vec<Self::T>) -> (r: Self)
        requires
            xi@.len() == Self::dim_model(),
        ensures
            r.wf(),
            r@ == Self::exp_model(models(xi@)),
    ;

    /// The logarithm map, from the group to the tangent space.
    fn log(&self) -> (r: Vec<Self::T>)
        requires
            self.wf(),
        ensures
            r@.len() == Self::dim_model(),
            models(r@) == Self::log_model(self@),
    ;

    /// A copy of the element.
    fn copy(&self) -> (r: Self)
        requires
            self.wf(),
        ensures
            r.wf(),
            r@ == self@,
    ;

    /// The dimension of the tangent space.
    fn dim(&self) -> (r: usize)
        ensures
            r == Self::dim_model(),
    ;

    /// The retraction `self * exp(xi)`.
    fn oplus(&self, xi: &Vec<Self::T>) -> (r: Self)
        requires
            self.wf(),
            xi@.len() == Self::dim_model(),
        ensures
            r.wf(),
            r@ == Self::compose_model(self@, Self::exp_model(models(xi@))),
    {
        self.oplus_right(xi)
    }

    /// The right retraction `self * exp(xi)`.
    fn oplus_right(&self, xi: &Vec<Self::T>) -> (r: Self)
        requires
            self.wf(),
            xi@.len() == Self::dim_model(),
        ensures
            r.wf(),
            r@ == Self::compose_model(self@, Self::exp_model(models(xi@))),
    {
        self.compose(&Self::exp(xi))
    }

    /// The left retraction `exp(xi) * self`.
    fn oplus_left(&self, xi: &Vec<Self::T>) -> (r: Self)
        requires
            self.wf(),
            xi@.len() == Self::dim_model(),
        ensures
            r.wf(),
            r@ == Self::compose_model(Self::exp_model(models(xi@)), self@),
    {
        Self::exp(xi).compose(self)
    }

    /// The difference `log(y^-1 * self)` in the tangent space.
    fn ominus(&self, y: &Self) -> (r: Vec<Self::T>)
        requires
            self.wf(),
            y.wf(),
        ensures
            r@.len() == Self::dim_model(),
            models(r@) == Self::log_model(Self::compose_model(Self::inverse_model(y@), self@)),
    {
        self.ominus_right(y)
    }

    /// The right difference `log(y^-1 * self)`.
    fn ominus_right(&self, y: &Self) -> (r: Vec<Self::T>)
        requires
            self.wf(),
            y.wf(),
        ensures
            r@.len() == Self::dim_model(),
            models(r@) == Self::log_model(Self::compose_model(Self::inverse_model(y@), self@)),
    {
        y.inverse().compose(self).log()
    }

    /// The left difference `log(self * y^-1)`.
    fn ominus_left(&self, y: &Self) -> (r: Vec<Self::T>)
        requires
            self.wf(),
            y.wf(),
        ensures
            r@.len() == Self::dim_model(),
            models(r@) == Self::log_model(Self::compose_model(self@, Self::inverse_model(y@))),
    {
        self.compose(&y.inverse()).log()
    }

    /// What is left of `self` when `other` is taken off its front:
    /// `other^-1 * self`.
    fn minus(&self, other: &Self) -> (r: Self)
        requires
            self.wf(),
            other.wf(),
        ensures
            r.wf(),
            r@ == Self::compose_model(Self::inverse_model(other@), self@),
    {
        other.inverse().compose(self)
    }
}

/// A variable whose kind is known only when the program runs: what the
/// optimiser needs of it.
pub trait VariableSafe: Sized + View {
    /// The scalar type.
    type T: Numeric;

    /// The dimension of the tangent space.
    spec fn dim_model(&self) -> nat;

    /// The retraction of `delta` onto the variable.
    spec fn oplus_model(&self, delta: Seq<<Self::T as Numeric>::M>) -> Self::V;

    /// A copy of the variable.
    fn clone_box(&self) -> (r: Self)
        ensures
            r@ == self@,
    ;

    /// The dimension of the tangent space.
    fn dim(&self) -> (r: usize)
        ensures
            r == self.dim_model(),
    ;

    /// Replaces the variable by the retraction of `delta` onto it.
    fn oplus_mut(&mut self, delta: &Vec<Self::T>)
        requires
            delta@.len() == old(self).dim_model(),
        ensures
            final(self)@ == old(self).oplus_model(models(delta@)),
    ;
}

/// A Lie group of matrices.
pub trait MatrixLieGroup: Variable {
    /// The order of the matrix that stands for an element.
    spec fn matrix_dim() -> nat;

    /// The length of the vectors that an element acts on.
    spec fn vector_dim() -> nat;

    spec fn adjoint_model(x: Self::V) -> Grid<<Self::T as Numeric>::M>;

    spec fn hat_model(xi: Seq<<Self::T as Numeric>::M>) -> Grid<<Self::T as Numeric>::M>;

    spec fn vee_model(m: Grid<<Self::T as Numeric>::M>) -> Seq<<Self::T as Numeric>::M>;

    spec fn hat_swap_model(v: Seq<<Self::T as Numeric>::M>) -> Grid<<Self::T as Numeric>::M>;

    spec fn apply_model(x: Self::V, v: Seq<<Self::T as Numeric>::M>) -> Seq<
        <Self::T as Numeric>::M,
    >;

    spec fn to_matrix_model(x: Self::V) -> Grid<<Self::T as Numeric>::M>;

    spec fn from_matrix_model(m: Grid<<Self::T as Numeric>::M>) -> Self::V;

    /// The adjoint: the matrix `Ad` with `x * exp(xi) = exp(Ad xi) * x`.
    fn adjoint(&self) -> (r: Matrix<Self::T>)
        requires
            self.wf(),
        ensures
            r.wf(),
            r@ == Self::adjoint_model(self@),
    ;

    /// The element of the Lie algebra that the tangent vector stands for.
    fn hat(xi: &Vec<Self::T>) -> (r: Matrix<Self::T>)
        requires
            xi@.len() == Self::dim_model(),
        ensures
            r.wf(),
            r@ == Self::hat_model(models(xi@)),
    ;

    /// The tangent vector that an element of the Lie algebra stands for.
    fn vee(m: &Matrix<Self::T>) -> (r: Vec<Self::T>)
        requires
            m.wf(),
            m@.nrows() == Self::matrix_dim(),
            m@.ncols == Self::matrix_dim(),
        ensures
            r@.len() == Self::dim_model(),
            models(r@) == Self::vee_model(m@),
    ;

    /// The matrix `S(v)` with `hat(xi) v = S(v) xi`.
    fn hat_swap(v: &Vec<Self::T>) -> (r: Matrix<Self::T>)
        requires
            v@.len() == Self::vector_dim(),
        ensures
            r.wf(),
            r@ == Self::hat_swap_model(models(v@)),
    ;

    /// The element's action on a vector.
    fn apply(&self, v: &Vec<Self::T>) -> (r: Vec<Self::T>)
        requires
            self.wf(),
            v@.len() == Self::vector_dim(),
        ensures
            r@.len() == Self::vector_dim(),
            models(r@) == Self::apply_model(self@, models(v@)),
    ;

    /// The matrix that stands for the element.
    fn to_matrix(&self) -> (r: Matrix<Self::T>)
        requires
            self.wf(),
        ensures
            r.wf(),
            r@ == Self::to_matrix_model(self@),
    ;

    /// The element that a matrix stands for.
    fn from_matrix(m: &Matrix<Self::T>) -> (r: Self)
        requires
            m.wf(),
            m@.nrows() == Self::matrix_dim(),
            m@.ncols == Self::matrix_dim(),
        ensures
            r.wf(),
            r@ == Self::from_matrix_model(m@),
    ;
}

} // verus!
