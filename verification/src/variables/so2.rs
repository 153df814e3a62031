//! The group SO(2) of rotations of the plane, held as a cosine and a sine.

use vstd::prelude::*;
use crate::linalg::dense::{seq1, seq2, vec1, vec2};
use crate::linalg::dual::{tangent_seed, tangent_seeds, Dual, DualModel};
use crate::linalg::matrix::{Grid, Matrix};
use crate::linalg::numeric::{models, Numeric, Scalar};
use crate::variables::traits::{MatrixLieGroup, Variable};

verus! {

/// A rotation of the plane by an angle: `a` is the angle's cosine, `b` its
/// sine.
pub struct SO2<T> {
    pub a: T,
    pub b: T,
}

impl<T: Numeric> View for SO2<T> {
    type V = SO2<T::M>;

    open spec fn view(&self) -> SO2<T::M> {
        SO2 { a: self.a@, b: self.b@ }
    }
}

/// The rotation by the angle zero.
pub open spec fn identity_model<V: Scalar>() -> SO2<V> {
    SO2 { a: V::ratio(1, 1), b: V::ratio(0, 1) }
}

/// The rotation by the opposite angle.
pub open spec fn inverse_model<V: Scalar>(p: SO2<V>) -> SO2<V> {
    SO2 { a: p.a, b: p.b.neg() }
}

/// The rotation by the sum of the angles.
pub open spec fn compose_model<V: Scalar>(p: SO2<V>, q: SO2<V>) -> SO2<V> {
    SO2 { a: p.a.mul(q.a).sub(p.b.mul(q.b)), b: p.a.mul(q.b).add(p.b.mul(q.a)) }
}

/// The rotation by the angle `xi[0]`.
pub open spec fn exp_model<V: Scalar>(xi: Seq<V>) -> SO2<V> {
    SO2 { a: xi[0].cos(), b: xi[0].sin() }
}

/// The angle of the rotation, `atan2(b, a)`.
pub open spec fn log_model<V: Scalar>(p: SO2<V>) -> Seq<V> {
    seq1(p.b.atan2(p.a))
}

/// The rotation matrix.
pub open spec fn to_matrix_model<V: Scalar>(p: SO2<V>) -> Grid<V> {
    Grid::of2(p.a, p.b.neg(), p.b, p.a)
}

/// The rotation whose matrix `m` is, read off the first column.
pub open spec fn from_matrix_model<V: Scalar>(m: Grid<V>) -> SO2<V> {
    SO2 { a: m.rows[0][0], b: m.rows[1][0] }
}

/// The skew-symmetric 2 by 2 matrix of the angle `xi[0]`.
pub open spec fn hat_model<V: Scalar>(xi: Seq<V>) -> Grid<V> {
    Grid::of2(V::ratio(0, 1), xi[0].neg(), xi[0], V::ratio(0, 1))
}

/// The angle whose skew-symmetric matrix `m` is.
pub open spec fn vee_model<V: Scalar>(m: Grid<V>) -> Seq<V> {
    seq1(m.rows[1][0])
}

/// The column `(-v[1], v[0])`.
pub open spec fn hat_swap_model<V: Scalar>(v: Seq<V>) -> Grid<V> {
    Grid::column(seq2(v[1].neg(), v[0]))
}

/// The vector `v`, rotated.
pub open spec fn apply_model<V: Scalar>(p: SO2<V>, v: Seq<V>) -> Seq<V> {
    seq2(p.a.mul(v[0]).sub(p.b.mul(v[1])), p.b.mul(v[0]).add(p.a.mul(v[1])))
}

/// The same rotation over dual numbers, as a constant.
pub open spec fn lift_model<V: Scalar>(p: SO2<V>) -> SO2<DualModel<V>> {
    SO2 { a: DualModel::constant(p.a), b: DualModel::constant(p.b) }
}

/// The exponential of the angle zero whose derivative is the direction
/// `idx` among `n`.
pub open spec fn dual_exp_model<V: Scalar>(idx: int, n: nat) -> SO2<DualModel<V>> {
    exp_model(tangent_seed::<V>(1, idx, n))
}

/// The rotation `p` with the tangent direction `idx` among `n` retracted
/// onto it.
pub open spec fn dual_model<V: Scalar>(p: SO2<V>, idx: int, n: nat) -> SO2<DualModel<V>> {
    compose_model(lift_model(p), dual_exp_model(idx, n))
}

impl<T: Numeric> SO2<T> {
    /// The rotation by the angle `theta`.
    pub fn from_theta(theta: &T) -> (r: Self)
        ensures
            r@ == exp_model(seq1(theta@)),
    {
        SO2 { a: theta.cos(), b: theta.sin() }
    }

    /// The angle of the rotation.
    pub fn to_theta(&self) -> (r: T)
        ensures
            r@ == log_model(self@)[0],
    {
        self.b.atan2(&self.a)
    }

    /// The same rotation over dual numbers, as a constant.
    pub fn lift(&self) -> (r: SO2<Dual<T>>)
        ensures
            r@ == lift_model(self@),
    {
        SO2 { a: Dual::constant(self.a.copy()), b: Dual::constant(self.b.copy()) }
    }

    /// The exponential of the angle zero whose derivative is the direction
    /// `idx` among `n`.
    pub fn dual_exp(idx: usize, n: usize) -> (r: SO2<Dual<T>>)
        requires
            idx + 1 <= n,
        ensures
            r@ == dual_exp_model::<T::M>(idx as int, n as nat),
    {
        let seeds = tangent_seeds::<T>(1, idx, n);
        SO2::<Dual<T>>::exp(&seeds)
    }

    /// The rotation with the tangent direction `idx` among `n` retracted
    /// onto it.
    pub fn dual(&self, idx: usize, n: usize) -> (r: SO2<Dual<T>>)
        requires
            idx + 1 <= n,
        ensures
            r@ == dual_model(self@, idx as int, n as nat),
    {
        let casted = self.lift();
        let setup = Self::dual_exp(idx, n);
        casted.compose(&setup)
    }
}

impl<T: Numeric> Variable for SO2<T> {
    type T = T;

    open spec fn dim_model() -> nat {
        1
    }

    open spec fn wf(&self) -> bool {
        true
    }

    open spec fn identity_model() -> SO2<T::M> {
        identity_model()
    }

    open spec fn inverse_model(x: SO2<T::M>) -> SO2<T::M> {
        inverse_model(x)
    }

    open spec fn compose_model(x: SO2<T::M>, y: SO2<T::M>) -> SO2<T::M> {
        compose_model(x, y)
    }

    open spec fn exp_model(xi: Seq<T::M>) -> SO2<T::M> {
        exp_model(xi)
    }

    open spec fn log_model(x: SO2<T::M>) -> Seq<T::M> {
        log_model(x)
    }

    fn identity() -> (r: Self) {
        SO2 { a: T::from_ratio(1, 1), b: T::from_ratio(0, 1) }
    }

    fn inverse(&self) -> (r: Self) {
        SO2 { a: self.a.copy(), b: self.b.neg() }
    }

    fn compose(&self, other: &Self) -> (r: Self) {
        let p = self;
        let q = other;
        SO2 { a: p.a.mul(&q.a).sub(&p.b.mul(&q.b)), b: p.a.mul(&q.b).add(&p.b.mul(&q.a)) }
    }

    fn exp(xi: &Vec<T>) -> (r: Self) {
        SO2 { a: xi[0].cos(), b: xi[0].sin() }
    }

    fn log(&self) -> (r: Vec<T>) {
        let p = self;
        vec1(&p.b.atan2(&p.a))
    }

    fn copy(&self) -> (r: Self) {
        SO2 { a: self.a.copy(), b: self.b.copy() }
    }

    fn dim(&self) -> (r: usize) {
        1
    }
}

impl<T: Numeric> MatrixLieGroup for SO2<T> {
    open spec fn matrix_dim() -> nat {
        2
    }

    open spec fn vector_dim() -> nat {
        2
    }

    open spec fn adjoint_model(x: SO2<T::M>) -> Grid<T::M> {
        Grid::identity(1)
    }

    open spec fn hat_model(xi: Seq<T::M>) -> Grid<T::M> {
        hat_model(xi)
    }

    open spec fn vee_model(m: Grid<T::M>) -> Seq<T::M> {
        vee_model(m)
    }

    open spec fn hat_swap_model(v: Seq<T::M>) -> Grid<T::M> {
        hat_swap_model(v)
    }

    open spec fn apply_model(x: SO2<T::M>, v: Seq<T::M>) -> Seq<T::M> {
        apply_model(x, v)
    }

    open spec fn to_matrix_model(x: SO2<T::M>) -> Grid<T::M> {
        to_matrix_model(x)
    }

    open spec fn from_matrix_model(m: Grid<T::M>) -> SO2<T::M> {
        from_matrix_model(m)
    }

    fn adjoint(&self) -> (r: Matrix<T>) {
        Matrix::identity(1)
    }

    fn hat(xi: &Vec<T>) -> (r: Matrix<T>) {
        Matrix::of2(&T::from_ratio(0, 1), &xi[0].neg(), &xi[0].copy(), &T::from_ratio(0, 1))
    }

    fn vee(m: &Matrix<T>) -> (r: Vec<T>) {
        vec1(&m.get(1, 0))
    }

    fn hat_swap(v: &Vec<T>) -> (r: Matrix<T>) {
        Matrix::column(&vec2(&v[1].neg(), &v[0].copy()))
    }

    fn apply(&self, v: &Vec<T>) -> (r: Vec<T>) {
        assert(Self::vector_dim() == 2);
        let p = self;
        let out = vec2(&p.a.mul(&v[0]).sub(&p.b.mul(&v[1])), &p.b.mul(&v[0]).add(&p.a.mul(&v[1])));
        assert(Self::apply_model(self@, models(v@)) == apply_model(self@, models(v@)));
        out
    }

    fn to_matrix(&self) -> (r: Matrix<T>) {
        let p = self;
        Matrix::of2(&p.a.copy(), &p.b.neg(), &p.b.copy(), &p.a.copy())
    }

    fn from_matrix(m: &Matrix<T>) -> (r: Self) {
        SO2 { a: m.get(0, 0), b: m.get(1, 0) }
    }
}

} // verus!
