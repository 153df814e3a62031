//! The group SO(3) of rotations of space, held as unit quaternions.

use vstd::prelude::*;
use crate::linalg::dense::{norm_squared, norm_squared_model, seq3, vec3, vscale, vscale_model};
use crate::linalg::dual::{Dual, DualModel};
use crate::linalg::matrix::{Grid, Matrix};
use crate::linalg::numeric::{models, Numeric, Scalar};
use crate::variables::traits::{MatrixLieGroup, Variable};

verus! {

/// A rotation, as the quaternion `w + x i + y j + z k`.
pub struct SO3<T> {
    pub x: T,
    pub y: T,
    pub z: T,
    pub w: T,
}

impl<T: Numeric> View for SO3<T> {
    type V = SO3<T::M>;

    open spec fn view(&self) -> SO3<T::M> {
        SO3 { x: self.x@, y: self.y@, z: self.z@, w: self.w@ }
    }
}

/// The rotation that turns nothing.
pub open spec fn identity_model<V: Scalar>() -> SO3<V> {
    SO3 { x: V::ratio(0, 1), y: V::ratio(0, 1), z: V::ratio(0, 1), w: V::ratio(1, 1) }
}

/// The conjugate quaternion.
pub open spec fn inverse_model<V: Scalar>(q: SO3<V>) -> SO3<V> {
    SO3 { x: q.x.neg(), y: q.y.neg(), z: q.z.neg(), w: q.w }
}

/// The Hamilton product `a b`: the rotation `b`, then the rotation `a`.
pub open spec fn compose_model<V: Scalar>(a: SO3<V>, b: SO3<V>) -> SO3<V> {
    SO3 {
        x: a.w.mul(b.x).add(a.x.mul(b.w)).add(a.y.mul(b.z)).sub(a.z.mul(b.y)),
        y: a.w.mul(b.y).sub(a.x.mul(b.z)).add(a.y.mul(b.w)).add(a.z.mul(b.x)),
        z: a.w.mul(b.z).add(a.x.mul(b.y)).sub(a.y.mul(b.x)).add(a.z.mul(b.w)),
        w: a.w.mul(b.w).sub(a.x.mul(b.x)).sub(a.y.mul(b.y)).sub(a.z.mul(b.z)),
    }
}

/// The rotation about the axis `xi` by the angle `|xi|`: with `theta` the
/// angle, the quaternion `(xi sin(theta / 2) / theta, cos(theta / 2))`, and
/// `(xi / 2, 1 - theta^2 / 8)` where `theta^2` is below `10^-6`.
pub open spec fn exp_model<V: Scalar>(xi: Seq<V>) -> SO3<V> {
    let theta2 = norm_squared_model(xi);
    if theta2.lt(V::ratio(1, 1000000)) {
        SO3 {
            x: xi[0].mul(V::ratio(1, 2)),
            y: xi[1].mul(V::ratio(1, 2)),
            z: xi[2].mul(V::ratio(1, 2)),
            w: V::ratio(1, 1).sub(theta2.div(V::ratio(8, 1))),
        }
    } else {
        let theta = theta2.sqrt();
        let s = theta.mul(V::ratio(1, 2)).sin().div(theta);
        SO3 {
            x: xi[0].mul(s),
            y: xi[1].mul(s),
            z: xi[2].mul(s),
            w: theta.mul(V::ratio(1, 2)).cos(),
        }
    }
}

/// The rotation vector of a rotation: with `v = (x, y, z)`, `n = |v|` and
/// `s` the sign of `w`, the vector `v s 2 atan2(s n, s w) / n`, and
/// `v (2 / w - (2 / 3) n^2 / w^3)` where `n^2` is below `10^-6`.
pub open spec fn log_model<V: Scalar>(q: SO3<V>) -> Seq<V> {
    let v = seq3(q.x, q.y, q.z);
    let n2 = norm_squared_model(v);
    let scale = if n2.lt(V::ratio(1, 1000000)) {
        V::ratio(2, 1).div(q.w).sub(V::ratio(2, 3).mul(n2).div(q.w.mul(q.w).mul(q.w)))
    } else {
        let s = if q.w.is_sign_positive() {
            V::ratio(1, 1)
        } else {
            V::ratio(1, 1).neg()
        };
        let n = n2.sqrt();
        s.mul(V::ratio(2, 1)).mul(s.mul(n).atan2(s.mul(q.w))).div(n)
    };
    vscale_model(v, scale)
}

/// The rotation matrix of a quaternion.
pub open spec fn to_matrix_model<V: Scalar>(q: SO3<V>) -> Grid<V> {
    Grid::of3(
        V::ratio(1, 1).sub(q.y.mul(q.y).add(q.z.mul(q.z)).mul(V::ratio(2, 1))),
        q.x.mul(q.y).sub(q.w.mul(q.z)).mul(V::ratio(2, 1)),
        q.x.mul(q.z).add(q.w.mul(q.y)).mul(V::ratio(2, 1)),
        q.x.mul(q.y).add(q.w.mul(q.z)).mul(V::ratio(2, 1)),
        V::ratio(1, 1).sub(q.x.mul(q.x).add(q.z.mul(q.z)).mul(V::ratio(2, 1))),
        q.y.mul(q.z).sub(q.w.mul(q.x)).mul(V::ratio(2, 1)),
        q.x.mul(q.z).sub(q.w.mul(q.y)).mul(V::ratio(2, 1)),
        q.y.mul(q.z).add(q.w.mul(q.x)).mul(V::ratio(2, 1)),
        V::ratio(1, 1).sub(q.x.mul(q.x).add(q.y.mul(q.y)).mul(V::ratio(2, 1))),
    )
}

/// The skew-symmetric matrix of `xi`, whose product with a vector is the
/// cross product of `xi` with it.
pub open spec fn hat_model<V: Scalar>(xi: Seq<V>) -> Grid<V> {
    Grid::of3(
        V::ratio(0, 1),
        xi[2].neg(),
        xi[1],
        xi[2],
        V::ratio(0, 1),
        xi[0].neg(),
        xi[1].neg(),
        xi[0],
        V::ratio(0, 1),
    )
}

/// The vector whose skew-symmetric matrix `m` is.
pub open spec fn vee_model<V: Scalar>(m: Grid<V>) -> Seq<V> {
    seq3(m.rows[2][1], m.rows[0][2], m.rows[1][0])
}

/// The vector `v`, rotated: the vector part of `q (v, 0) q^-1`.
pub open spec fn apply_model<V: Scalar>(q: SO3<V>, v: Seq<V>) -> Seq<V> {
    let qv = SO3 { x: v[0], y: v[1], z: v[2], w: V::ratio(0, 1) };
    let r = compose_model(compose_model(q, qv), inverse_model(q));
    seq3(r.x, r.y, r.z)
}

/// The quaternion of a rotation matrix, by the greatest of the trace and
/// the three diagonal entries.
pub open spec fn from_matrix_model<V: Scalar>(m: Grid<V>) -> SO3<V> {
    let trace = m.rows[0][0].add(m.rows[1][1]).add(m.rows[2][2]);
    if V::ratio(0, 1).lt(trace) {
        let s = V::ratio(1, 2).div(trace.add(V::ratio(1, 1)).sqrt());
        SO3 {
            x: m.rows[2][1].sub(m.rows[1][2]).mul(s),
            y: m.rows[0][2].sub(m.rows[2][0]).mul(s),
            z: m.rows[1][0].sub(m.rows[0][1]).mul(s),
            w: V::ratio(1, 4).div(s),
        }
    } else if m.rows[1][1].lt(m.rows[0][0]) && m.rows[2][2].lt(m.rows[0][0]) {
        let s = V::ratio(2, 1).mul(
            V::ratio(1, 1).add(m.rows[0][0]).sub(m.rows[1][1]).sub(m.rows[2][2]).sqrt(),
        );
        SO3 {
            x: s.mul(V::ratio(1, 4)),
            y: m.rows[0][1].add(m.rows[1][0]).div(s),
            z: m.rows[0][2].add(m.rows[2][0]).div(s),
            w: m.rows[2][1].sub(m.rows[1][2]).div(s),
        }
    } else if m.rows[2][2].lt(m.rows[1][1]) {
        let s = V::ratio(2, 1).mul(
            V::ratio(1, 1).add(m.rows[1][1]).sub(m.rows[0][0]).sub(m.rows[2][2]).sqrt(),
        );
        SO3 {
            x: m.rows[0][1].add(m.rows[1][0]).div(s),
            y: s.mul(V::ratio(1, 4)),
            z: m.rows[1][2].add(m.rows[2][1]).div(s),
            w: m.rows[0][2].sub(m.rows[2][0]).div(s),
        }
    } else {
        let s = V::ratio(2, 1).mul(
            V::ratio(1, 1).add(m.rows[2][2]).sub(m.rows[0][0]).sub(m.rows[1][1]).sqrt(),
        );
        SO3 {
            x: m.rows[0][2].add(m.rows[2][0]).div(s),
            y: m.rows[1][2].add(m.rows[2][1]).div(s),
            z: s.mul(V::ratio(1, 4)),
            w: m.rows[1][0].sub(m.rows[0][1]).div(s),
        }
    }
}

/// The derivative of `exp` at `xi` for the right retraction:
/// `I - a hat(xi) + b hat(xi)^2`, with `a = (1 - cos(theta)) / theta^2` and
/// `b = (theta - sin(theta)) / theta^3`, and `a = 1 / 2`, `b = 1 / 6` where
/// `theta^2` is below `10^-6`.
pub open spec fn dexp_right_model<V: Scalar>(xi: Seq<V>) -> Grid<V> {
    let theta2 = norm_squared_model(xi);
    let small = theta2.lt(V::ratio(1, 1000000));
    let theta = theta2.sqrt();
    let a = if small {
        V::ratio(1, 2)
    } else {
        V::ratio(1, 1).sub(theta.cos()).div(theta2)
    };
    let b = if small {
        V::ratio(1, 1).div(V::ratio(6, 1))
    } else {
        theta.sub(theta.sin()).div(theta.mul(theta2))
    };
    let hat = hat_model(xi);
    Grid::identity(3).sub(hat.scale(a)).add(hat.matmul(hat).scale(b))
}

/// The derivative of `exp` at `xi` for the left retraction:
/// `I + a hat(xi) + b hat(xi)^2`, with `a` and `b` as for the right one.
pub open spec fn dexp_left_model<V: Scalar>(xi: Seq<V>) -> Grid<V> {
    let theta2 = norm_squared_model(xi);
    let small = theta2.lt(V::ratio(1, 1000000));
    let theta = theta2.sqrt();
    let a = if small {
        V::ratio(1, 2)
    } else {
        V::ratio(1, 1).sub(theta.cos()).div(theta2)
    };
    let b = if small {
        V::ratio(1, 1).div(V::ratio(6, 1))
    } else {
        theta.sub(theta.sin()).div(theta.mul(theta2))
    };
    let hat = hat_model(xi);
    Grid::identity(3).add(hat.scale(a)).add(hat.matmul(hat).scale(b))
}

/// The same rotation over dual numbers, as a constant.
pub open spec fn lift_model<V: Scalar>(q: SO3<V>) -> SO3<DualModel<V>> {
    SO3 {
        x: DualModel::constant(q.x),
        y: DualModel::constant(q.y),
        z: DualModel::constant(q.z),
        w: DualModel::constant(q.w),
    }
}

/// The exponential of the tangent vector zero whose derivatives are the
/// directions `idx`, `idx + 1`, `idx + 2` among `n`: half a unit on each of
/// `x`, `y`, `z`, and the constant one on `w`.
pub open spec fn dual_exp_model<V: Scalar>(idx: int, n: nat) -> SO3<DualModel<V>> {
    SO3 {
        x: DualModel::seeded(V::ratio(0, 1), idx, n, V::ratio(1, 2)),
        y: DualModel::seeded(V::ratio(0, 1), idx + 1, n, V::ratio(1, 2)),
        z: DualModel::seeded(V::ratio(0, 1), idx + 2, n, V::ratio(1, 2)),
        w: DualModel::constant(V::ratio(1, 1)),
    }
}

/// The rotation `q` with the tangent directions `idx`, `idx + 1`, `idx + 2`
/// among `n` retracted onto it.
pub open spec fn dual_model<V: Scalar>(q: SO3<V>, idx: int, n: nat) -> SO3<DualModel<V>> {
    compose_model(lift_model(q), dual_exp_model(idx, n))
}

impl<T: Numeric> SO3<T> {
    /// The rotation of the quaternion whose entries `xyzw` holds in that
    /// order.
    pub fn from_vec(xyzw: &Vec<T>) -> (r: Self)
        requires
            xyzw@.len() == 4,
        ensures
            r@ == (SO3 { x: xyzw@[0]@, y: xyzw@[1]@, z: xyzw@[2]@, w: xyzw@[3]@ }),
    {
        SO3 { x: xyzw[0].copy(), y: xyzw[1].copy(), z: xyzw[2].copy(), w: xyzw[3].copy() }
    }

    /// The rotation of the quaternion `w + x i + y j + z k`.
    pub fn from_xyzw(x: T, y: T, z: T, w: T) -> (r: Self)
        ensures
            r@ == (SO3 { x: x@, y: y@, z: z@, w: w@ }),
    {
        SO3 { x, y, z, w }
    }

    /// The coefficient of `i`.
    pub fn x(&self) -> (r: T)
        ensures
            r@ == self@.x,
    {
        self.x.copy()
    }

    /// The coefficient of `j`.
    pub fn y(&self) -> (r: T)
        ensures
            r@ == self@.y,
    {
        self.y.copy()
    }

    /// The coefficient of `k`.
    pub fn z(&self) -> (r: T)
        ensures
            r@ == self@.z,
    {
        self.z.copy()
    }

    /// The real part.
    pub fn w(&self) -> (r: T)
        ensures
            r@ == self@.w,
    {
        self.w.copy()
    }

    /// The derivative of `exp` at `xi`, for the right retraction.
    pub fn dexp(xi: &Vec<T>) -> (r: Matrix<T>)
        requires
            xi@.len() == 3,
        ensures
            r.wf(),
            r@ == dexp_right_model(models(xi@)),
    {
        Self::dexp_right(xi)
    }

    /// The derivative of `exp` at `xi`, for the right retraction.
    pub fn dexp_right(xi: &Vec<T>) -> (r: Matrix<T>)
        requires
            xi@.len() == 3,
        ensures
            r.wf(),
            r@ == dexp_right_model(models(xi@)),
    {
        let theta2 = norm_squared(xi);
        let small = theta2.lt(&T::from_ratio(1, 1000000));
        let theta = theta2.sqrt();
        let a = if small {
            T::from_ratio(1, 2)
        } else {
            T::from_ratio(1, 1).sub(&theta.cos()).div(&theta2)
        };
        let b = if small {
            T::from_ratio(1, 1).div(&T::from_ratio(6, 1))
        } else {
            theta.sub(&theta.sin()).div(&theta.mul(&theta2))
        };
        let hat = Self::hat(xi);
        Matrix::identity(3).sub(&hat.scale(&a)).add(&hat.matmul(&hat).scale(&b))
    }

    /// The derivative of `exp` at `xi`, for the left retraction.
    pub fn dexp_left(xi: &Vec<T>) -> (r: Matrix<T>)
        requires
            xi@.len() == 3,
        ensures
            r.wf(),
            r@ == dexp_left_model(models(xi@)),
    {
        let theta2 = norm_squared(xi);
        let small = theta2.lt(&T::from_ratio(1, 1000000));
        let theta = theta2.sqrt();
        let a = if small {
            T::from_ratio(1, 2)
        } else {
            T::from_ratio(1, 1).sub(&theta.cos()).div(&theta2)
        };
        let b = if small {
            T::from_ratio(1, 1).div(&T::from_ratio(6, 1))
        } else {
            theta.sub(&theta.sin()).div(&theta.mul(&theta2))
        };
        let hat = Self::hat(xi);
        Matrix::identity(3).add(&hat.scale(&a)).add(&hat.matmul(&hat).scale(&b))
    }

    /// The same rotation over dual numbers, as a constant.
    pub fn lift(&self) -> (r: SO3<Dual<T>>)
        ensures
            r@ == lift_model(self@),
    {
        SO3 {
            x: Dual::constant(self.x.copy()),
            y: Dual::constant(self.y.copy()),
            z: Dual::constant(self.z.copy()),
            w: Dual::constant(self.w.copy()),
        }
    }

    /// The exponential of the tangent vector zero whose derivatives are the
    /// directions `idx`, `idx + 1`, `idx + 2` among `n`.
    pub fn dual_exp(idx: usize, n: usize) -> (r: SO3<Dual<T>>)
        requires
            idx + 3 <= n,
        ensures
            r@ == dual_exp_model::<T::M>(idx as int, n as nat),
    {
        let half = T::from_ratio(1, 2);
        SO3 {
            x: Dual::seeded(T::from_ratio(0, 1), idx, n, &half),
            y: Dual::seeded(T::from_ratio(0, 1), idx + 1, n, &half),
            z: Dual::seeded(T::from_ratio(0, 1), idx + 2, n, &half),
            w: Dual::constant(T::from_ratio(1, 1)),
        }
    }

    /// The rotation with the tangent directions `idx`, `idx + 1`, `idx + 2`
    /// among `n` retracted onto it.
    pub fn dual(&self, idx: usize, n: usize) -> (r: SO3<Dual<T>>)
        requires
            idx + 3 <= n,
        ensures
            r@ == dual_model(self@, idx as int, n as nat),
    {
        let casted = self.lift();
        let setup = Self::dual_exp(idx, n);
        casted.compose(&setup)
    }
}

impl<T: Numeric> Variable for SO3<T> {
    type T = T;

    open spec fn dim_model() -> nat {
        3
    }

    open spec fn wf(&self) -> bool {
        true
    }

    open spec fn identity_model() -> SO3<T::M> {
        identity_model()
    }

    open spec fn inverse_model(x: SO3<T::M>) -> SO3<T::M> {
        inverse_model(x)
    }

    open spec fn compose_model(x: SO3<T::M>, y: SO3<T::M>) -> SO3<T::M> {
        compose_model(x, y)
    }

    open spec fn exp_model(xi: Seq<T::M>) -> SO3<T::M> {
        exp_model(xi)
    }

    open spec fn log_model(x: SO3<T::M>) -> Seq<T::M> {
        log_model(x)
    }

    fn identity() -> (r: Self) {
        SO3 {
            x: T::from_ratio(0, 1),
            y: T::from_ratio(0, 1),
            z: T::from_ratio(0, 1),
            w: T::from_ratio(1, 1),
        }
    }

    fn inverse(&self) -> (r: Self) {
        SO3 { x: self.x.neg(), y: self.y.neg(), z: self.z.neg(), w: self.w.copy() }
    }

    fn compose(&self, other: &Self) -> (r: Self) {
        let a = self;
        let b = other;
        SO3 {
            x: a.w.mul(&b.x).add(&a.x.mul(&b.w)).add(&a.y.mul(&b.z)).sub(&a.z.mul(&b.y)),
            y: a.w.mul(&b.y).sub(&a.x.mul(&b.z)).add(&a.y.mul(&b.w)).add(&a.z.mul(&b.x)),
            z: a.w.mul(&b.z).add(&a.x.mul(&b.y)).sub(&a.y.mul(&b.x)).add(&a.z.mul(&b.w)),
            w: a.w.mul(&b.w).sub(&a.x.mul(&b.x)).sub(&a.y.mul(&b.y)).sub(&a.z.mul(&b.z)),
        }
    }

    fn exp(xi: &Vec<T>) -> (r: Self) {
        let theta2 = norm_squared(xi);
        if theta2.lt(&T::from_ratio(1, 1000000)) {
            SO3 {
                x: xi[0].mul(&T::from_ratio(1, 2)),
                y: xi[1].mul(&T::from_ratio(1, 2)),
                z: xi[2].mul(&T::from_ratio(1, 2)),
                w: T::from_ratio(1, 1).sub(&theta2.div(&T::from_ratio(8, 1))),
            }
        } else {
            let theta = theta2.sqrt();
            let s = theta.mul(&T::from_ratio(1, 2)).sin().div(&theta);
            SO3 {
                x: xi[0].mul(&s),
                y: xi[1].mul(&s),
                z: xi[2].mul(&s),
                w: theta.mul(&T::from_ratio(1, 2)).cos(),
            }
        }
    }

    fn log(&self) -> (r: Vec<T>) {
        let q = self;
        let v = vec3(&q.x, &q.y, &q.z);
        let n2 = norm_squared(&v);
        let scale = if n2.lt(&T::from_ratio(1, 1000000)) {
            T::from_ratio(2, 1).div(&q.w).sub(&T::from_ratio(2, 3).mul(&n2).div(&q.w.mul(&q.w).mul(&q.w)))
        } else {
            let s = if q.w.is_sign_positive() {
                T::from_ratio(1, 1)
            } else {
                T::from_ratio(1, 1).neg()
            };
            let n = n2.sqrt();
            s.mul(&T::from_ratio(2, 1)).mul(&s.mul(&n).atan2(&s.mul(&q.w))).div(&n)
        };
        vscale(&v, &scale)
    }

    fn copy(&self) -> (r: Self) {
        SO3 { x: self.x.copy(), y: self.y.copy(), z: self.z.copy(), w: self.w.copy() }
    }

    fn dim(&self) -> (r: usize) {
        3
    }
}

impl<T: Numeric> MatrixLieGroup for SO3<T> {
    open spec fn matrix_dim() -> nat {
        3
    }

    open spec fn vector_dim() -> nat {
        3
    }

    open spec fn adjoint_model(x: SO3<T::M>) -> Grid<T::M> {
        to_matrix_model(x)
    }

    open spec fn hat_model(xi: Seq<T::M>) -> Grid<T::M> {
        hat_model(xi)
    }

    open spec fn vee_model(m: Grid<T::M>) -> Seq<T::M> {
        vee_model(m)
    }

    open spec fn hat_swap_model(v: Seq<T::M>) -> Grid<T::M> {
        hat_model(v).neg()
    }

    open spec fn apply_model(x: SO3<T::M>, v: Seq<T::M>) -> Seq<T::M> {
        apply_model(x, v)
    }

    open spec fn to_matrix_model(x: SO3<T::M>) -> Grid<T::M> {
        to_matrix_model(x)
    }

    open spec fn from_matrix_model(m: Grid<T::M>) -> SO3<T::M> {
        from_matrix_model(m)
    }

    fn adjoint(&self) -> (r: Matrix<T>) {
        self.to_matrix()
    }

    fn hat(xi: &Vec<T>) -> (r: Matrix<T>) {
        Matrix::of3(
            &T::from_ratio(0, 1),
            &xi[2].neg(),
            &xi[1],
            &xi[2],
            &T::from_ratio(0, 1),
            &xi[0].neg(),
            &xi[1].neg(),
            &xi[0],
            &T::from_ratio(0, 1))
    }

    fn vee(m: &Matrix<T>) -> (r: Vec<T>) {
        vec3(&m.get(2, 1), &m.get(0, 2), &m.get(1, 0))
    }

    fn hat_swap(v: &Vec<T>) -> (r: Matrix<T>) {
        Self::hat(v).neg()
    }

    fn apply(&self, v: &Vec<T>) -> (r: Vec<T>) {
        assert(Self::vector_dim() == 3);
        let qv = SO3 { x: v[0].copy(), y: v[1].copy(), z: v[2].copy(), w: T::from_ratio(0, 1) };
        let r = self.compose(&qv).compose(&self.inverse());
        let out = vec3(&r.x, &r.y, &r.z);
        assert(Self::apply_model(self@, models(v@)) == apply_model(self@, models(v@)));
        out
    }

    fn to_matrix(&self) -> (r: Matrix<T>) {
        let q = self;
        Matrix::of3(
            &T::from_ratio(1, 1).sub(&q.y.mul(&q.y).add(&q.z.mul(&q.z)).mul(&T::from_ratio(2, 1))),
            &q.x.mul(&q.y).sub(&q.w.mul(&q.z)).mul(&T::from_ratio(2, 1)),
            &q.x.mul(&q.z).add(&q.w.mul(&q.y)).mul(&T::from_ratio(2, 1)),
            &q.x.mul(&q.y).add(&q.w.mul(&q.z)).mul(&T::from_ratio(2, 1)),
            &T::from_ratio(1, 1).sub(&q.x.mul(&q.x).add(&q.z.mul(&q.z)).mul(&T::from_ratio(2, 1))),
            &q.y.mul(&q.z).sub(&q.w.mul(&q.x)).mul(&T::from_ratio(2, 1)),
            &q.x.mul(&q.z).sub(&q.w.mul(&q.y)).mul(&T::from_ratio(2, 1)),
            &q.y.mul(&q.z).add(&q.w.mul(&q.x)).mul(&T::from_ratio(2, 1)),
            &T::from_ratio(1, 1).sub(&q.x.mul(&q.x).add(&q.y.mul(&q.y)).mul(&T::from_ratio(2, 1))))
    }

    fn from_matrix(m: &Matrix<T>) -> (r: Self) {
        let trace = m.get(0, 0).add(&m.get(1, 1)).add(&m.get(2, 2));
        if T::from_ratio(0, 1).lt(&trace) {
            let s = T::from_ratio(1, 2).div(&trace.add(&T::from_ratio(1, 1)).sqrt());
            SO3 {
                x: m.get(2, 1).sub(&m.get(1, 2)).mul(&s),
                y: m.get(0, 2).sub(&m.get(2, 0)).mul(&s),
                z: m.get(1, 0).sub(&m.get(0, 1)).mul(&s),
                w: T::from_ratio(1, 4).div(&s),
            }
        } else if m.get(1, 1).lt(&m.get(0, 0)) && m.get(2, 2).lt(&m.get(0, 0)) {
            let s = T::from_ratio(2, 1).mul(
                &T::from_ratio(1, 1).add(&m.get(0, 0)).sub(&m.get(1, 1)).sub(&m.get(2, 2)).sqrt());
            SO3 {
                x: s.mul(&T::from_ratio(1, 4)),
                y: m.get(0, 1).add(&m.get(1, 0)).div(&s),
                z: m.get(0, 2).add(&m.get(2, 0)).div(&s),
                w: m.get(2, 1).sub(&m.get(1, 2)).div(&s),
            }
        } else if m.get(2, 2).lt(&m.get(1, 1)) {
            let s = T::from_ratio(2, 1).mul(
                &T::from_ratio(1, 1).add(&m.get(1, 1)).sub(&m.get(0, 0)).sub(&m.get(2, 2)).sqrt());
            SO3 {
                x: m.get(0, 1).add(&m.get(1, 0)).div(&s),
                y: s.mul(&T::from_ratio(1, 4)),
                z: m.get(1, 2).add(&m.get(2, 1)).div(&s),
                w: m.get(0, 2).sub(&m.get(2, 0)).div(&s),
            }
        } else {
            let s = T::from_ratio(2, 1).mul(
                &T::from_ratio(1, 1).add(&m.get(2, 2)).sub(&m.get(0, 0)).sub(&m.get(1, 1)).sqrt());
            SO3 {
                x: m.get(0, 2).add(&m.get(2, 0)).div(&s),
                y: m.get(1, 2).add(&m.get(2, 1)).div(&s),
                z: s.mul(&T::from_ratio(1, 4)),
                w: m.get(1, 0).sub(&m.get(0, 1)).div(&s),
            }
        }
    }
}

} // verus!
