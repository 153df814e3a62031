//! The group SE(2) of rigid motions of the plane: a rotation and a
//! translation. In the tangent space the rotation comes first.

use vstd::prelude::*;
use crate::linalg::dense::{seq1, seq2, seq3, vadd, vadd_model, vec1, vec2, vec3, vneg, vneg_model};
use crate::linalg::dual::{tangent_seed, tangent_seeds, Dual, DualModel};
use crate::linalg::matrix::{Grid, Matrix};
use crate::linalg::numeric::{models, Numeric, Scalar};
use crate::variables::so2;
use crate::variables::so2::SO2;
use crate::variables::traits::{MatrixLieGroup, Variable};

verus! {

/// A rigid motion of the plane: the rotation `rot`, then the translation
/// `(x, y)`.
pub struct SE2<T> {
    pub rot: SO2<T>,
    pub x: T,
    pub y: T,
}

impl<T: Numeric> View for SE2<T> {
    type V = SE2<T::M>;

    open spec fn view(&self) -> SE2<T::M> {
        SE2 { rot: self.rot@, x: self.x@, y: self.y@ }
    }
}

/// The translation.
pub open spec fn xy_model<V>(p: SE2<V>) -> Seq<V> {
    seq2(p.x, p.y)
}

/// The motion that moves nothing.
pub open spec fn identity_model<V: Scalar>() -> SE2<V> {
    SE2 { rot: so2::identity_model(), x: V::ratio(0, 1), y: V::ratio(0, 1) }
}

/// The motion `b`, then the motion `a`: the rotations composed, and the
/// translation of `b` rotated by `a`, plus that of `a`.
pub open spec fn compose_model<V: Scalar>(a: SE2<V>, b: SE2<V>) -> SE2<V> {
    let t = vadd_model(so2::apply_model(a.rot, xy_model(b)), xy_model(a));
    SE2 { rot: so2::compose_model(a.rot, b.rot), x: t[0], y: t[1] }
}

/// The inverse rotation, and the translation rotated by it and negated.
pub open spec fn inverse_model<V: Scalar>(p: SE2<V>) -> SE2<V> {
    let inv = so2::inverse_model(p.rot);
    let t = vneg_model(so2::apply_model(inv, xy_model(p)));
    SE2 { rot: inv, x: t[0], y: t[1] }
}

/// The matrix `V = I + b hat(theta) + c hat(theta)^2` that turns the
/// translational part of a tangent vector into a translation, with
/// `b = (1 - cos(theta)) / theta^2` and `c = (theta - sin(theta)) / theta^3`,
/// and `b = 1 / 2`, `c = 1 / 6` where `theta^2` is below `10^-5`.
pub open spec fn v_matrix_model<V: Scalar>(theta: V) -> Grid<V> {
    let theta2 = theta.mul(theta);
    let small = theta2.lt(V::ratio(1, 100000));
    let b = if small {
        V::ratio(1, 2)
    } else {
        V::ratio(1, 1).sub(theta.cos()).div(theta2)
    };
    let c = if small {
        V::ratio(1, 6)
    } else {
        theta.sub(theta.sin()).div(theta.mul(theta2))
    };
    let hat = so2::hat_model(seq1(theta));
    Grid::identity(2).add(hat.scale(b)).add(hat.matmul(hat).scale(c))
}

/// The motion of the tangent vector `xi = (theta, nu)`: the rotation by
/// `theta` and the translation `V nu`.
pub open spec fn exp_model<V: Scalar>(xi: Seq<V>) -> SE2<V> {
    let t = v_matrix_model(xi[0]).mul_vec(seq2(xi[1], xi[2]));
    SE2 { rot: so2::exp_model(seq1(xi[0])), x: t[0], y: t[1] }
}

/// The tangent vector of a motion: the angle `theta` of the rotation, then
/// `V^-1` times the translation.
pub open spec fn log_model<V: Scalar>(p: SE2<V>) -> Seq<V> {
    let theta = so2::log_model(p.rot);
    let t = v_matrix_model(theta[0]).inverse2().mul_vec(xy_model(p));
    seq3(theta[0], t[0], t[1])
}

/// The 3 by 3 matrix of a motion: the rotation matrix with the translation
/// as a third column, over the row `(0, 0, 1)`.
pub open spec fn to_matrix_model<V: Scalar>(p: SE2<V>) -> Grid<V> {
    Grid::identity(3).with_block(0, 0, so2::to_matrix_model(p.rot)).with_block(
        0,
        2,
        Grid::column(xy_model(p)),
    )
}

/// The motion that a 3 by 3 matrix stands for.
pub open spec fn from_matrix_model<V: Scalar>(m: Grid<V>) -> SE2<V> {
    SE2 { rot: so2::from_matrix_model(m.block(0, 0, 2, 2)), x: m.rows[0][2], y: m.rows[1][2] }
}

/// The point `v`, moved: rotated, then translated.
pub open spec fn apply_model<V: Scalar>(p: SE2<V>, v: Seq<V>) -> Seq<V> {
    vadd_model(so2::apply_model(p.rot, v), xy_model(p))
}

/// The 3 by 3 matrix of a tangent vector: the skew-symmetric matrix of its
/// angle, with its translational part as a third column, over a row of
/// zeros.
pub open spec fn hat_model<V: Scalar>(xi: Seq<V>) -> Grid<V> {
    Grid::zeros(3, 3).with_block(0, 0, so2::hat_model(seq1(xi[0]))).with_block(
        0,
        2,
        Grid::column(seq2(xi[1], xi[2])),
    )
}

/// The tangent vector that a 3 by 3 matrix of the Lie algebra stands for.
pub open spec fn vee_model<V: Scalar>(m: Grid<V>) -> Seq<V> {
    seq3(m.rows[1][0], m.rows[0][2], m.rows[1][2])
}

/// The 2 by 3 matrix whose first column is `(-v[1], v[0])` and whose other
/// two are the identity.
pub open spec fn hat_swap_model<V: Scalar>(v: Seq<V>) -> Grid<V> {
    Grid::zeros(2, 3).with_block(0, 0, so2::hat_swap_model(v)).with_block(
        0,
        1,
        Grid::identity(2),
    )
}

/// The 3 by 3 adjoint: one in the corner, the rotation matrix below on the
/// right, and `(y, -x)` below on the left.
pub open spec fn adjoint_model<V: Scalar>(p: SE2<V>) -> Grid<V> {
    Grid::identity(3).with_block(1, 1, so2::to_matrix_model(p.rot)).with_block(
        1,
        0,
        Grid::column(seq2(p.y, p.x.neg())),
    )
}

/// The same motion over dual numbers, as a constant.
pub open spec fn lift_model<V: Scalar>(p: SE2<V>) -> SE2<DualModel<V>> {
    SE2 { rot: so2::lift_model(p.rot), x: DualModel::constant(p.x), y: DualModel::constant(p.y) }
}

/// The exponential of the tangent vector zero whose derivatives are the
/// directions `idx` to `idx + 2` among `n`.
pub open spec fn dual_exp_model<V: Scalar>(idx: int, n: nat) -> SE2<DualModel<V>> {
    exp_model(tangent_seed::<V>(3, idx, n))
}

/// The motion `p` with the tangent directions `idx` to `idx + 2` among `n`
/// retracted onto it.
pub open spec fn dual_model<V: Scalar>(p: SE2<V>, idx: int, n: nat) -> SE2<DualModel<V>> {
    compose_model(lift_model(p), dual_exp_model(idx, n))
}

/// The matrix `V` of the angle `theta`.
pub fn v_matrix<T: Numeric>(theta: &T) -> (r: Matrix<T>)
    ensures
        r.wf(),
        r@ == v_matrix_model(theta@),
{
    let theta2 = theta.mul(theta);
        let small = theta2.lt(&T::from_ratio(1, 100000));
        let b = if small {
            T::from_ratio(1, 2)
        } else {
            T::from_ratio(1, 1).sub(&theta.cos()).div(&theta2)
        };
        let c = if small {
            T::from_ratio(1, 6)
        } else {
            theta.sub(&theta.sin()).div(&theta.mul(&theta2))
        };
        let hat = SO2::<T>::hat(&vec1(theta));
        Matrix::identity(2).add(&hat.scale(&b)).add(&hat.matmul(&hat).scale(&c))
}

impl<T: Numeric> SE2<T> {
    /// The motion with the given rotation and translation.
    pub fn from_rot_trans(rot: SO2<T>, x: T, y: T) -> (r: Self)
        ensures
            r@ == (SE2 { rot: rot@, x: x@, y: y@ }),
    {
        SE2 { rot, x, y }
    }

    /// The motion that turns by `theta` and then moves by `(x, y)`.
    pub fn new(theta: &T, x: T, y: T) -> (r: Self)
        ensures
            r@ == (SE2 { rot: so2::exp_model(seq1(theta@)), x: x@, y: y@ }),
    {
        SE2 { rot: SO2::from_theta(theta), x, y }
    }

    /// The rotation.
    pub fn rot(&self) -> (r: &SO2<T>)
        ensures
            r@ == self@.rot,
    {
        &self.rot
    }

    /// The translation.
    pub fn xy(&self) -> (r: Vec<T>)
        ensures
            r@.len() == 2,
            models(r@) == xy_model(self@),
    {
        vec2(&self.x, &self.y)
    }

    /// The same motion over dual numbers, as a constant.
    pub fn lift(&self) -> (r: SE2<Dual<T>>)
        ensures
            r@ == lift_model(self@),
    {
        SE2 {
            rot: self.rot.lift(),
            x: Dual::constant(self.x.copy()),
            y: Dual::constant(self.y.copy()),
        }
    }

    /// The exponential of the tangent vector zero whose derivatives are the
    /// directions `idx` to `idx + 2` among `n`.
    pub fn dual_exp(idx: usize, n: usize) -> (r: SE2<Dual<T>>)
        requires
            idx + 3 <= n,
        ensures
            r@ == dual_exp_model::<T::M>(idx as int, n as nat),
    {
        let seeds = tangent_seeds::<T>(3, idx, n);
        SE2::<Dual<T>>::exp(&seeds)
    }

    /// The motion with the tangent directions `idx` to `idx + 2` among `n`
    /// retracted onto it.
    pub fn dual(&self, idx: usize, n: usize) -> (r: SE2<Dual<T>>)
        requires
            idx + 3 <= n,
        ensures
            r@ == dual_model(self@, idx as int, n as nat),
    {
        let casted = self.lift();
        let setup = Self::dual_exp(idx, n);
        casted.compose(&setup)
    }
}

impl<T: Numeric> Variable for SE2<T> {
    type T = T;

    open spec fn dim_model() -> nat {
        3
    }

    open spec fn wf(&self) -> bool {
        true
    }

    open spec fn identity_model() -> SE2<T::M> {
        identity_model()
    }

    open spec fn inverse_model(x: SE2<T::M>) -> SE2<T::M> {
        inverse_model(x)
    }

    open spec fn compose_model(x: SE2<T::M>, y: SE2<T::M>) -> SE2<T::M> {
        compose_model(x, y)
    }

    open spec fn exp_model(xi: Seq<T::M>) -> SE2<T::M> {
        exp_model(xi)
    }

    open spec fn log_model(x: SE2<T::M>) -> Seq<T::M> {
        log_model(x)
    }

    fn identity() -> (r: Self) {
        SE2 { rot: SO2::identity(), x: T::from_ratio(0, 1), y: T::from_ratio(0, 1) }
    }

    fn inverse(&self) -> (r: Self) {
        let p = self;
        let inv = p.rot.inverse();
            let t = vneg(&inv.apply(&p.xy()));
            SE2 { rot: inv, x: t[0].copy(), y: t[1].copy() }
    }

    fn compose(&self, other: &Self) -> (r: Self) {
        let a = self;
        let b = other;
        let t = vadd(&a.rot.apply(&b.xy()), &a.xy());
            SE2 { rot: a.rot.compose(&b.rot), x: t[0].copy(), y: t[1].copy() }
    }

    fn exp(xi: &Vec<T>) -> (r: Self) {
        let t = v_matrix(&xi[0]).mul_vec(&vec2(&xi[1], &xi[2]));
            SE2 { rot: SO2::<T>::exp(&vec1(&xi[0])), x: t[0].copy(), y: t[1].copy() }
    }

    fn log(&self) -> (r: Vec<T>) {
        let p = self;
        let theta = p.rot.log();
            let t = v_matrix(&theta[0]).inverse2().mul_vec(&p.xy());
            vec3(&theta[0], &t[0], &t[1])
    }

    fn copy(&self) -> (r: Self) {
        SE2 { rot: self.rot.copy(), x: self.x.copy(), y: self.y.copy() }
    }

    fn dim(&self) -> (r: usize) {
        3
    }
}

impl<T: Numeric> MatrixLieGroup for SE2<T> {
    open spec fn matrix_dim() -> nat {
        3
    }

    open spec fn vector_dim() -> nat {
        2
    }

    open spec fn adjoint_model(x: SE2<T::M>) -> Grid<T::M> {
        adjoint_model(x)
    }

    open spec fn hat_model(xi: Seq<T::M>) -> Grid<T::M> {
        hat_model(xi)
    }

    open spec fn vee_model(m: Grid<T::M>) -> Seq<T::M> {
        vee_model(m)
    }

    open spec fn hat_swap_model(v: Seq<T::M>) -> Grid<T::M> {
        hat_swap_model(v)
    }

    open spec fn apply_model(x: SE2<T::M>, v: Seq<T::M>) -> Seq<T::M> {
        apply_model(x, v)
    }

    open spec fn to_matrix_model(x: SE2<T::M>) -> Grid<T::M> {
        to_matrix_model(x)
    }

    open spec fn from_matrix_model(m: Grid<T::M>) -> SE2<T::M> {
        from_matrix_model(m)
    }

    fn adjoint(&self) -> (r: Matrix<T>) {
        let p = self;
        Matrix::identity(3).with_block(1, 1, &p.rot.to_matrix()).with_block(
                1,
                0,
                &Matrix::column(&vec2(&p.y.copy(), &p.x.neg())))
    }

    fn hat(xi: &Vec<T>) -> (r: Matrix<T>) {
        Matrix::zeros(3, 3).with_block(0, 0, &SO2::<T>::hat(&vec1(&xi[0]))).with_block(
                0,
                2,
                &Matrix::column(&vec2(&xi[1], &xi[2])))
    }

    fn vee(m: &Matrix<T>) -> (r: Vec<T>) {
        vec3(&m.get(1, 0), &m.get(0, 2), &m.get(1, 2))
    }

    fn hat_swap(v: &Vec<T>) -> (r: Matrix<T>) {
        Matrix::zeros(2, 3).with_block(0, 0, &SO2::<T>::hat_swap(v)).with_block(
                0,
                1,
                &Matrix::identity(2))
    }

    fn apply(&self, v: &Vec<T>) -> (r: Vec<T>) {
        let p = self;
        vadd(&p.rot.apply(v), &p.xy())
    }

    fn to_matrix(&self) -> (r: Matrix<T>) {
        let p = self;
        Matrix::identity(3).with_block(0, 0, &p.rot.to_matrix()).with_block(
                0,
                2,
                &Matrix::column(&p.xy()))
    }

    fn from_matrix(m: &Matrix<T>) -> (r: Self) {
        SE2 { rot: SO2::<T>::from_matrix(&m.block(0, 0, 2, 2)), x: m.get(0, 2), y: m.get(1, 2) }
    }
}

} // verus!
