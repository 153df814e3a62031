use factrs::linalg::cholesky::{cholesky, spd_inverse};
use factrs::linalg::matrix::Matrix;
use factrs::linalg::{Numeric, Scalar};
use factrs::variables::{MatrixLieGroup, Variable, SO3};
use nalgebra::{Matrix3, Quaternion, UnitQuaternion, Vector3};

#[derive(Clone, Copy, Debug, PartialEq)]
struct R(f64);

impl Scalar for R {
    fn ratio(num: i64, den: i64) -> R {
        R(num as f64 / den as f64)
    }

    fn add(self, rhs: R) -> R {
        R(self.0 + rhs.0)
    }

    fn sub(self, rhs: R) -> R {
        R(self.0 - rhs.0)
    }

    fn mul(self, rhs: R) -> R {
        R(self.0 * rhs.0)
    }

    fn div(self, rhs: R) -> R {
        R(self.0 / rhs.0)
    }

    fn neg(self) -> R {
        R(-self.0)
    }

    fn sqrt(self) -> R {
        R(self.0.sqrt())
    }

    fn sin(self) -> R {
        R(self.0.sin())
    }

    fn cos(self) -> R {
        R(self.0.cos())
    }

    fn atan2(self, rhs: R) -> R {
        R(self.0.atan2(rhs.0))
    }

    fn exp(self) -> R {
        R(self.0.exp())
    }

    fn ln(self) -> R {
        R(self.0.ln())
    }

    fn lt(self, rhs: R) -> bool {
        self.0 < rhs.0
    }

    fn equals(self, rhs: R) -> bool {
        self.0 == rhs.0
    }

    fn is_sign_positive(self) -> bool {
        self.0.is_sign_positive()
    }
}

impl Numeric for R {
    type M = R;

    fn view(&self) -> R {
        *self
    }

    fn from_ratio(num: i64, den: i64) -> R {
        R(num as f64 / den as f64)
    }

    fn copy(&self) -> R {
        *self
    }

    fn add(&self, rhs: &R) -> R {
        R(self.0 + rhs.0)
    }

    fn sub(&self, rhs: &R) -> R {
        R(self.0 - rhs.0)
    }

    fn mul(&self, rhs: &R) -> R {
        R(self.0 * rhs.0)
    }

    fn div(&self, rhs: &R) -> R {
        R(self.0 / rhs.0)
    }

    fn neg(&self) -> R {
        R(-self.0)
    }

    fn sqrt(&self) -> R {
        R(self.0.sqrt())
    }

    fn sin(&self) -> R {
        R(self.0.sin())
    }

    fn cos(&self) -> R {
        R(self.0.cos())
    }

    fn atan2(&self, rhs: &R) -> R {
        R(self.0.atan2(rhs.0))
    }

    fn exp(&self) -> R {
        R(self.0.exp())
    }

    fn ln(&self) -> R {
        R(self.0.ln())
    }

    fn lt(&self, rhs: &R) -> bool {
        self.0 < rhs.0
    }

    fn equals(&self, rhs: &R) -> bool {
        self.0 == rhs.0
    }

    fn is_sign_positive(&self) -> bool {
        self.0.is_sign_positive()
    }
}

fn reals(v: &[f64]) -> Vec<R> {
    v.iter().map(|x| R(*x)).collect()
}

fn ours(m: &Matrix3<f64>) -> Matrix<R> {
    Matrix::from_rows((0..3).map(|i| (0..3).map(|j| R(m[(i, j)])).collect()).collect(), 3)
}

fn close(got: &Matrix<R>, want: &Matrix3<f64>, tol: f64) {
    for i in 0..3 {
        for j in 0..3 {
            assert!(
                (got.get(i, j).0 - want[(i, j)]).abs() <= tol,
                "entry {} {}: {} against {}",
                i,
                j,
                got.get(i, j).0,
                want[(i, j)]
            );
        }
    }
}

fn spd() -> Matrix3<f64> {
    Matrix3::new(4.0, 2.0, 0.6, 2.0, 5.0, 1.0, 0.6, 1.0, 3.0)
}

#[test]
fn cholesky_agrees_with_nalgebra() {
    let a = spd();
    let l = cholesky(&ours(&a)).unwrap();
    close(&l, &a.cholesky().unwrap().l(), 1e-15);
    let inv = spd_inverse(&ours(&a)).unwrap();
    close(&inv, &a.cholesky().unwrap().inverse(), 1e-15);
    close(&inv, &a.try_inverse().unwrap(), 1e-15);
    let indefinite = Matrix3::new(1.0, 2.0, 0.0, 2.0, 1.0, 0.0, 0.0, 0.0, 1.0);
    assert!(indefinite.cholesky().is_none());
    assert!(cholesky(&ours(&indefinite)).is_none());
}

#[test]
fn small_inverse_agrees_with_nalgebra() {
    let m = Matrix3::new(2.0, 0.5, 1.0, -1.0, 3.0, 0.25, 0.0, 1.0, 4.0);
    close(&ours(&m).inverse3(), &m.try_inverse().unwrap(), 1e-16);
    close(&ours(&m).matmul(&ours(&spd())), &(m * spd()), 1e-15);
    close(&ours(&m).transpose(), &m.transpose(), 0.0);
}

#[test]
fn rotations_agree_with_nalgebra() {
    for xi in [[0.1, 0.2, 0.3], [1.0, -2.0, 0.5], [1e-5, 0.0, 2e-5], [0.0, 3.0, 0.0]] {
        let theirs = UnitQuaternion::from_scaled_axis(Vector3::new(xi[0], xi[1], xi[2]));
        let mine = SO3::exp(&reals(&xi));
        let q = theirs.quaternion();
        for (got, want) in [mine.x.0, mine.y.0, mine.z.0, mine.w.0].iter().zip([q.i, q.j, q.k, q.w]) {
            assert!((got - want).abs() <= 1e-15, "{} against {}", got, want);
        }
        let back = theirs.scaled_axis();
        for (got, want) in mine.log().iter().zip([back.x, back.y, back.z]) {
            assert!((got.0 - want).abs() <= 1e-14, "{} against {}", got.0, want);
        }
        close(&mine.to_matrix(), &theirs.to_rotation_matrix().into_inner(), 1e-15);
        let other = UnitQuaternion::from_scaled_axis(Vector3::new(-0.3, 0.1, 0.5));
        let product = theirs * other;
        let composed = mine.compose(&SO3::exp(&reals(&[-0.3, 0.1, 0.5])));
        let p = product.quaternion();
        for (got, want) in
            [composed.x.0, composed.y.0, composed.z.0, composed.w.0].iter().zip([p.i, p.j, p.k, p.w])
        {
            assert!((got - want).abs() <= 1e-15);
        }
        let v = theirs * Vector3::new(1.0, 2.0, 3.0);
        for (got, want) in mine.apply(&reals(&[1.0, 2.0, 3.0])).iter().zip([v.x, v.y, v.z]) {
            assert!((got.0 - want).abs() <= 1e-14);
        }
        let inverse = theirs.inverse();
        let mine_inverse = mine.inverse();
        for (got, want) in [mine_inverse.x.0, mine_inverse.y.0, mine_inverse.z.0, mine_inverse.w.0]
            .iter()
            .zip([inverse.i, inverse.j, inverse.k, inverse.w])
        {
            assert!((got - want).abs() <= 1e-15);
        }
    }
    let unit = UnitQuaternion::from_quaternion(Quaternion::new(0.9, 0.1, 0.2, 0.3));
    let m = unit.to_rotation_matrix().into_inner();
    let back = SO3::from_matrix(&ours(&m));
    let q = unit.quaternion();
    for (got, want) in [back.x.0, back.y.0, back.z.0, back.w.0].iter().zip([q.i, q.j, q.k, q.w]) {
        assert!((got - want).abs() <= 1e-15);
    }
}
