//! The group SE(3) of rigid motions of space: a rotation and a translation.
//! In the tangent space the rotation comes first.

use vstd::prelude::*;
use crate::linalg::dense::{
    norm_squared, norm_squared_model, seq3, seq6, vadd, vadd_model, vec3, vec6, vneg, vneg_model,
};
use crate::linalg::dual::{tangent_seed, tangent_seeds, Dual, DualModel};
use crate::linalg::matrix::{Grid, Matrix};
use crate::linalg::numeric::{models, Numeric, Scalar};
use crate::variables::so3;
use crate::variables::so3::SO3;
use crate::variables::traits::{MatrixLieGroup, Variable};

verus! {

/// A rigid motion: the rotation `rot`, then the translation `(x, y, z)`.
pub struct SE3<T> {
    pub rot: SO3<T>,
    pub x: T,
    pub y: T,
    pub z: T,
}

impl<T: Numeric> View for SE3<T> {
    type V = SE3<T::M>;

    open spec fn view(&self) -> SE3<T::M> {
        SE3 { rot: self.rot@, x: self.x@, y: self.y@, z: self.z@ }
    }
}

/// The translation.
pub open spec fn xyz_model<V>(p: SE3<V>) -> Seq<V> {
    seq3(p.x, p.y, p.z)
}

/// The motion that moves nothing.
pub open spec fn identity_model<V: Scalar>() -> SE3<V> {
    SE3 { rot: so3::identity_model(), x: V::ratio(0, 1), y: V::ratio(0, 1), z: V::ratio(0, 1) }
}

/// The motion `b`, then the motion `a`: the rotations composed, and the
/// translation of `b` rotated by `a`, plus that of `a`.
pub open spec fn compose_model<V: Scalar>(a: SE3<V>, b: SE3<V>) -> SE3<V> {
    let t = vadd_model(so3::apply_model(a.rot, xyz_model(b)), xyz_model(a));
    SE3 { rot: so3::compose_model(a.rot, b.rot), x: t[0], y: t[1], z: t[2] }
}

/// The inverse rotation, and the translation rotated by it and negated.
pub open spec fn inverse_model<V: Scalar>(p: SE3<V>) -> SE3<V> {
    let inv = so3::inverse_model(p.rot);
    let t = vneg_model(so3::apply_model(inv, xyz_model(p)));
    SE3 { rot: inv, x: t[0], y: t[1], z: t[2] }
}

/// The matrix `V = I + b hat(omega) + c hat(omega)^2` that turns the
/// translational part of a tangent vector into a translation, with
/// `b = (1 - cos(theta)) / theta^2` and `c = (theta - sin(theta)) / theta^3`
/// for `theta = |omega|`, and `b = 1 / 2`, `c = 1 / 6` where `theta^2` is
/// below `10^-5`.
pub open spec fn v_matrix_model<V: Scalar>(omega: Seq<V>) -> Grid<V> {
    let theta2 = norm_squared_model(omega);
    let small = theta2.lt(V::ratio(1, 100000));
    let theta = theta2.sqrt();
    let b = if small {
        V::ratio(1, 2)
    } else {
        V::ratio(1, 1).sub(theta.cos()).div(theta2)
    };
    let c = if small {
        V::ratio(1, 6)
    } else {
        theta.sub(theta.sin()).div(theta.mul(theta2))
    };
    let hat = so3::hat_model(omega);
    Grid::identity(3).add(hat.scale(b)).add(hat.matmul(hat).scale(c))
}

/// The motion of the tangent vector `xi = (omega, nu)`: the rotation
/// `exp(omega)` and the translation `V nu`.
pub open spec fn exp_model<V: Scalar>(xi: Seq<V>) -> SE3<V> {
    let omega = seq3(xi[0], xi[1], xi[2]);
    let nu = seq3(xi[3], xi[4], xi[5]);
    let t = v_matrix_model(omega).mul_vec(nu);
    SE3 { rot: so3::exp_model(omega), x: t[0], y: t[1], z: t[2] }
}

/// The tangent vector of a motion: `omega = log(rot)`, then `V^-1` times the
/// translation.
pub open spec fn log_model<V: Scalar>(p: SE3<V>) -> Seq<V> {
    let omega = so3::log_model(p.rot);
    let t = v_matrix_model(omega).inverse3().mul_vec(xyz_model(p));
    seq6(omega[0], omega[1], omega[2], t[0], t[1], t[2])
}

/// The 4 by 4 matrix of a motion: the rotation matrix with the translation
/// as a fourth column, over the row `(0, 0, 0, 1)`.
pub open spec fn to_matrix_model<V: Scalar>(p: SE3<V>) -> Grid<V> {
    Grid::identity(4).with_block(0, 0, so3::to_matrix_model(p.rot)).with_block(
        0,
        3,
        Grid::column(xyz_model(p)),
    )
}

/// The motion that a 4 by 4 matrix stands for.
pub open spec fn from_matrix_model<V: Scalar>(m: Grid<V>) -> SE3<V> {
    SE3 {
        rot: so3::from_matrix_model(m.block(0, 0, 3, 3)),
        x: m.rows[0][3],
        y: m.rows[1][3],
        z: m.rows[2][3],
    }
}

/// The point `v`, moved: rotated, then translated.
pub open spec fn apply_model<V: Scalar>(p: SE3<V>, v: Seq<V>) -> Seq<V> {
    vadd_model(so3::apply_model(p.rot, v), xyz_model(p))
}

/// The 4 by 4 matrix of a tangent vector: the skew-symmetric matrix of its
/// rotational part, with its translational part as a fourth column, over a
/// row of zeros.
pub open spec fn hat_model<V: Scalar>(xi: Seq<V>) -> Grid<V> {
    Grid::zeros(4, 4).with_block(0, 0, so3::hat_model(seq3(xi[0], xi[1], xi[2]))).with_block(
        0,
        3,
        Grid::column(seq3(xi[3], xi[4], xi[5])),
    )
}

/// The tangent vector that a 4 by 4 matrix of the Lie algebra stands for.
pub open spec fn vee_model<V: Scalar>(m: Grid<V>) -> Seq<V> {
    seq6(m.rows[2][1], m.rows[0][2], m.rows[1][0], m.rows[0][3], m.rows[1][3], m.rows[2][3])
}

/// The 3 by 6 matrix `(-hat(v), I)`.
pub open spec fn hat_swap_model<V: Scalar>(v: Seq<V>) -> Grid<V> {
    Grid::zeros(3, 6).with_block(0, 0, so3::hat_model(v).neg()).with_block(
        0,
        3,
        Grid::identity(3),
    )
}

/// The 6 by 6 adjoint: the rotation matrix `R` twice on the diagonal, and
/// `hat(t) R` below on the left.
pub open spec fn adjoint_model<V: Scalar>(p: SE3<V>) -> Grid<V> {
    let r = so3::to_matrix_model(p.rot);
    Grid::zeros(6, 6).with_block(0, 0, r).with_block(3, 3, r).with_block(
        3,
        0,
        so3::hat_model(xyz_model(p)).matmul(r),
    )
}

/// The same motion over dual numbers, as a constant.
pub open spec fn lift_model<V: Scalar>(p: SE3<V>) -> SE3<DualModel<V>> {
    SE3 {
        rot: so3::lift_model(p.rot),
        x: DualModel::constant(p.x),
        y: DualModel::constant(p.y),
        z: DualModel::constant(p.z),
    }
}

/// The exponential of the tangent vector zero whose derivatives are the
/// directions `idx` to `idx + 5` among `n`.
pub open spec fn dual_exp_model<V: Scalar>(idx: int, n: nat) -> SE3<DualModel<V>> {
    exp_model(tangent_seed::<V>(6, idx, n))
}

/// The motion `p` with the tangent directions `idx` to `idx + 5` among `n`
/// retracted onto it.
pub open spec fn dual_model<V: Scalar>(p: SE3<V>, idx: int, n: nat) -> SE3<DualModel<V>> {
    compose_model(lift_model(p), dual_exp_model(idx, n))
}

/// The matrix `V` of the rotation vector `omega`.
pub fn v_matrix<T: Numeric>(omega: &Vec<T>) -> (r: Matrix<T>)
    requires
        omega@.len() == 3,
    ensures
        r.wf(),
        r@ == v_matrix_model(models(omega@)),
{
    let theta2 = norm_squared(omega);
    let small = theta2.lt(&T::from_ratio(1, 100000));
    let theta = theta2.sqrt();
    let b = if small {
        T::from_ratio(1, 2)
    } else {
        T::from_ratio(1, 1).sub(&theta.cos()).div(&theta2)
    };
    let c = if small {
        T::from_ratio(1, 6)
    } else {
        theta.sub(&theta.sin()).div(&theta.mul(&theta2))
    };
    let hat = SO3::<T>::hat(omega);
    Matrix::identity(3).add(&hat.scale(&b)).add(&hat.matmul(&hat).scale(&c))
}

impl<T: Numeric> SE3<T> {
    /// The motion with the given rotation and translation.
    pub fn from_rot_trans(rot: SO3<T>, xyz: &Vec<T>) -> (r: Self)
        requires
            xyz@.len() == 3,
        ensures
            r@ == (SE3 { rot: rot@, x: xyz@[0]@, y: xyz@[1]@, z: xyz@[2]@ }),
    {
        SE3 { rot, x: xyz[0].copy(), y: xyz[1].copy(), z: xyz[2].copy() }
    }

    /// The rotation.
    pub fn rot(&self) -> (r: &SO3<T>)
        ensures
            r@ == self@.rot,
    {
        &self.rot
    }

    /// The translation.
    pub fn xyz(&self) -> (r: Vec<T>)
        ensures
            r@.len() == 3,
            models(r@) == xyz_model(self@),
    {
        vec3(&self.x, &self.y, &self.z)
    }

    /// The same motion over dual numbers, as a constant.
    pub fn lift(&self) -> (r: SE3<Dual<T>>)
        ensures
            r@ == lift_model(self@),
    {
        SE3 {
            rot: self.rot.lift(),
            x: Dual::constant(self.x.copy()),
            y: Dual::constant(self.y.copy()),
            z: Dual::constant(self.z.copy()),
        }
    }

    /// The exponential of the tangent vector zero whose derivatives are the
    /// directions `idx` to `idx + 5` among `n`.
    pub fn dual_exp(idx: usize, n: usize) -> (r: SE3<Dual<T>>)
        requires
            idx + 6 <= n,
        ensures
            r@ == dual_exp_model::<T::M>(idx as int, n as nat),
    {
        let seeds = tangent_seeds::<T>(6, idx, n);
        SE3::<Dual<T>>::exp(&seeds)
    }

    /// The motion with the tangent directions `idx` to `idx + 5` among `n`
    /// retracted onto it.
    pub fn dual(&self, idx: usize, n: usize) -> (r: SE3<Dual<T>>)
        requires
            idx + 6 <= n,
        ensures
            r@ == dual_model(self@, idx as int, n as nat),
    {
        let casted = self.lift();
        let setup = Self::dual_exp(idx, n);
        casted.compose(&setup)
    }
}

impl<T: Numeric> Variable for SE3<T> {
    type T = T;

    open spec fn dim_model() -> nat {
        6
    }

    open spec fn wf(&self) -> bool {
        true
    }

    open spec fn identity_model() -> SE3<T::M> {
        identity_model()
    }

    open spec fn inverse_model(x: SE3<T::M>) -> SE3<T::M> {
        inverse_model(x)
    }

    open spec fn compose_model(x: SE3<T::M>, y: SE3<T::M>) -> SE3<T::M> {
        compose_model(x, y)
    }

    open spec fn exp_model(xi: Seq<T::M>) -> SE3<T::M> {
        exp_model(xi)
    }

    open spec fn log_model(x: SE3<T::M>) -> Seq<T::M> {
        log_model(x)
    }

    fn identity() -> (r: Self) {
        SE3 {
            rot: SO3::identity(),
            x: T::from_ratio(0, 1),
            y: T::from_ratio(0, 1),
            z: T::from_ratio(0, 1),
        }
    }

    fn inverse(&self) -> (r: Self) {
        let p = self;
        let inv = p.rot.inverse();
        let t = vneg(&inv.apply(&p.xyz()));
        SE3 { rot: inv, x: t[0].copy(), y: t[1].copy(), z: t[2].copy() }
    }

    fn compose(&self, other: &Self) -> (r: Self) {
        let a = self;
        let b = other;
        let t = vadd(&a.rot.apply(&b.xyz()), &a.xyz());
        SE3 { rot: a.rot.compose(&b.rot), x: t[0].copy(), y: t[1].copy(), z: t[2].copy() }
    }

    fn exp(xi: &Vec<T>) -> (r: Self) {
        let omega = vec3(&xi[0], &xi[1], &xi[2]);
        let nu = vec3(&xi[3], &xi[4], &xi[5]);
        let t = v_matrix(&omega).mul_vec(&nu);
        SE3 { rot: SO3::<T>::exp(&omega), x: t[0].copy(), y: t[1].copy(), z: t[2].copy() }
    }

    fn log(&self) -> (r: Vec<T>) {
        let p = self;
        let omega = p.rot.log();
        let t = v_matrix(&omega).inverse3().mul_vec(&p.xyz());
        vec6(&omega[0], &omega[1], &omega[2], &t[0], &t[1], &t[2])
    }

    fn copy(&self) -> (r: Self) {
        SE3 { rot: self.rot.copy(), x: self.x.copy(), y: self.y.copy(), z: self.z.copy() }
    }

    fn dim(&self) -> (r: usize) {
        6
    }
}

impl<T: Numeric> MatrixLieGroup for SE3<T> {
    open spec fn matrix_dim() -> nat {
        4
    }

    open spec fn vector_dim() -> nat {
        3
    }

    open spec fn adjoint_model(x: SE3<T::M>) -> Grid<T::M> {
        adjoint_model(x)
    }

    open spec fn hat_model(xi: Seq<T::M>) -> Grid<T::M> {
        hat_model(xi)
    }

    open spec fn vee_model(m: Grid<T::M>) -> Seq<T::M> {
        vee_model(m)
    }

    open spec fn hat_swap_model(v: Seq<T::M>) -> Grid<T::M> {
        hat_swap_model(v)
    }

    open spec fn apply_model(x: SE3<T::M>, v: Seq<T::M>) -> Seq<T::M> {
        apply_model(x, v)
    }

    open spec fn to_matrix_model(x: SE3<T::M>) -> Grid<T::M> {
        to_matrix_model(x)
    }

    open spec fn from_matrix_model(m: Grid<T::M>) -> SE3<T::M> {
        from_matrix_model(m)
    }

    fn adjoint(&self) -> (r: Matrix<T>) {
        let p = self;
        let r = p.rot.to_matrix();
        Matrix::zeros(6, 6).with_block(0, 0, &r).with_block(3, 3, &r).with_block(
            3,
            0,
            &SO3::<T>::hat(&p.xyz()).matmul(&r))
    }

    fn hat(xi: &Vec<T>) -> (r: Matrix<T>) {
        Matrix::zeros(4, 4).with_block(0, 0, &SO3::<T>::hat(&vec3(&xi[0], &xi[1], &xi[2]))).with_block(
            0,
            3,
            &Matrix::column(&vec3(&xi[3], &xi[4], &xi[5])))
    }

    fn vee(m: &Matrix<T>) -> (r: Vec<T>) {
        vec6(&m.get(2, 1), &m.get(0, 2), &m.get(1, 0), &m.get(0, 3), &m.get(1, 3), &m.get(2, 3))
    }

    fn hat_swap(v: &Vec<T>) -> (r: Matrix<T>) {
        Matrix::zeros(3, 6).with_block(0, 0, &SO3::<T>::hat(v).neg()).with_block(
            0,
            3,
            &Matrix::identity(3))
    }

    fn apply(&self, v: &Vec<T>) -> (r: Vec<T>) {
        let p = self;
        vadd(&p.rot.apply(v), &p.xyz())
    }

    fn to_matrix(&self) -> (r: Matrix<T>) {
        let p = self;
        Matrix::identity(4).with_block(0, 0, &p.rot.to_matrix()).with_block(
            0,
            3,
            &Matrix::column(&p.xyz()))
    }

    fn from_matrix(m: &Matrix<T>) -> (r: Self) {
        SE3 {
            rot: SO3::<T>::from_matrix(&m.block(0, 0, 3, 3)),
            x: m.get(0, 3),
            y: m.get(1, 3),
            z: m.get(2, 3),
        }
    }
}

} // verus!
