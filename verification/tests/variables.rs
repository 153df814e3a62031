use factrs::linalg::matrix::Matrix;
use factrs::linalg::{Numeric, Scalar};
use factrs::variables::{MatrixLieGroup, Variable, VectorVar, SE2, SE3, SO2, SO3};

#[derive(Clone, Copy, Debug, PartialEq)]
struct R(f64);

impl Scalar for R {
    fn ratio(num: i64, den: i64) -> R {
        R(num as f64 / den as f64)
    }

    fn add(self, rhs: R) -> R {
        R(self.0 + rhs.0)
    }

    fn sub(self, rhs: R) -> R {
        R(self.0 - rhs.0)
    }

    fn mul(self, rhs: R) -> R {
        R(self.0 * rhs.0)
    }

    fn div(self, rhs: R) -> R {
        R(self.0 / rhs.0)
    }

    fn neg(self) -> R {
        R(-self.0)
    }

    fn sqrt(self) -> R {
        R(self.0.sqrt())
    }

    fn sin(self) -> R {
        R(self.0.sin())
    }

    fn cos(self) -> R {
        R(self.0.cos())
    }

    fn atan2(self, rhs: R) -> R {
        R(self.0.atan2(rhs.0))
    }

    fn exp(self) -> R {
        R(self.0.exp())
    }

    fn ln(self) -> R {
        R(self.0.ln())
    }

    fn lt(self, rhs: R) -> bool {
        self.0 < rhs.0
    }

    fn equals(self, rhs: R) -> bool {
        self.0 == rhs.0
    }

    fn is_sign_positive(self) -> bool {
        self.0.is_sign_positive()
    }
}

impl Numeric for R {
    type M = R;

    fn view(&self) -> R {
        *self
    }

    fn from_ratio(num: i64, den: i64) -> R {
        R(num as f64 / den as f64)
    }

    fn copy(&self) -> R {
        *self
    }

    fn add(&self, rhs: &R) -> R {
        R(self.0 + rhs.0)
    }

    fn sub(&self, rhs: &R) -> R {
        R(self.0 - rhs.0)
    }

    fn mul(&self, rhs: &R) -> R {
        R(self.0 * rhs.0)
    }

    fn div(&self, rhs: &R) -> R {
        R(self.0 / rhs.0)
    }

    fn neg(&self) -> R {
        R(-self.0)
    }

    fn sqrt(&self) -> R {
        R(self.0.sqrt())
    }

    fn sin(&self) -> R {
        R(self.0.sin())
    }

    fn cos(&self) -> R {
        R(self.0.cos())
    }

    fn atan2(&self, rhs: &R) -> R {
        R(self.0.atan2(rhs.0))
    }

    fn exp(&self) -> R {
        R(self.0.exp())
    }

    fn ln(&self) -> R {
        R(self.0.ln())
    }

    fn lt(&self, rhs: &R) -> bool {
        self.0 < rhs.0
    }

    fn equals(&self, rhs: &R) -> bool {
        self.0 == rhs.0
    }

    fn is_sign_positive(&self) -> bool {
        self.0.is_sign_positive()
    }
}

fn reals(v: &[f64]) -> Vec<R> {
    v.iter().map(|x| R(*x)).collect()
}

fn floats(v: &[R]) -> Vec<f64> {
    v.iter().map(|x| x.0).collect()
}

fn entries(m: &Matrix<R>) -> Vec<f64> {
    let mut out = Vec::new();
    for i in 0..m.nrows() {
        for j in 0..m.ncols() {
            out.push(m.get(i, j).0);
        }
    }
    out
}

// Equal up to the machine epsilon, or up to four units in the last place.
fn assert_float_eq(got: &[f64], want: &[f64]) {
    assert_eq!(got.len(), want.len());
    for (g, w) in got.iter().zip(want) {
        let ulps = (g.to_bits() as i64 - w.to_bits() as i64).abs();
        assert!(
            (g - w).abs() <= f64::EPSILON || (g.signum() == w.signum() && ulps <= 4),
            "got {:?}, want {:?}",
            got,
            want
        );
    }
}

fn assert_close(got: &[f64], want: &[f64], tol: f64) {
    assert_eq!(got.len(), want.len());
    for (g, w) in got.iter().zip(want) {
        assert!((g - w).abs() <= tol, "got {:?}, want {:?}", got, want);
    }
}

#[test]
fn so3_exp_is_the_unit_quaternion_of_the_rotation_vector() {
    let q = SO3::exp(&reals(&[0.1, 0.2, 0.3]));
    let theta = (0.01f64 + 0.04 + 0.09).sqrt();
    let s = (theta / 2.0).sin() / theta;
    assert_close(
        &[q.x.0, q.y.0, q.z.0, q.w.0],
        &[0.1 * s, 0.2 * s, 0.3 * s, (theta / 2.0).cos()],
        1e-15,
    );
}

#[test]
fn so3_exp_of_a_tiny_vector_takes_the_series() {
    let q = SO3::exp(&reals(&[1e-4, 0.0, 0.0]));
    assert_eq!([q.x.0, q.y.0, q.z.0, q.w.0], [0.5e-4, 0.0, 0.0, 1.0 - 1e-8 / 8.0]);
}

#[test]
fn so3_log_inverts_exp() {
    for xi in [[0.1, 0.2, 0.3], [1e-8, 0.0, 0.0], [0.0, -0.7, 0.2], [0.5, 0.5, -0.5]] {
        let back = SO3::exp(&reals(&xi)).log();
        assert_close(&floats(&back), &xi, 1e-10);
    }
}

#[test]
fn so3_group_axioms_hold() {
    let x = SO3::exp(&reals(&[0.1, 0.2, 0.3]));
    let y = SO3::exp(&reals(&[-0.3, 0.1, 0.5]));
    let z = SO3::exp(&reals(&[0.2, -0.4, 0.1]));
    let id = SO3::<R>::identity();
    assert_close(&floats(&x.compose(&id).ominus(&x)), &[0.0; 3], 1e-10);
    assert_close(&floats(&x.compose(&x.inverse()).log()), &[0.0; 3], 1e-10);
    let left = x.compose(&y).compose(&z);
    let right = x.compose(&y.compose(&z));
    assert_close(&floats(&left.ominus(&right)), &[0.0; 3], 1e-10);
}

#[test]
fn so3_retraction_round_trip() {
    let x = SO3::exp(&reals(&[0.1, 0.2, 0.3]));
    let xi = [0.05, -0.02, 0.3];
    assert_close(&floats(&x.oplus(&reals(&xi)).ominus(&x)), &xi, 1e-10);
}

#[test]
fn so3_matrix_acts_as_apply() {
    let x = SO3::exp(&reals(&[0.1, 0.2, 0.3]));
    let v = reals(&[1.0, 2.0, 3.0]);
    let by_matrix = x.to_matrix().mul_vec(&v);
    assert_close(&floats(&x.apply(&v)), &floats(&by_matrix), 1e-12);
    let y = SO3::exp(&reals(&[-0.3, 0.1, 0.5]));
    let product = x.to_matrix().matmul(&y.to_matrix());
    assert_close(&entries(&x.compose(&y).to_matrix()), &entries(&product), 1e-12);
}

#[test]
fn so3_from_matrix_inverts_to_matrix() {
    for xi in [[0.1, 0.2, 0.3], [3.0, 0.1, 0.1], [0.1, 3.0, 0.1], [0.1, 0.1, 3.0]] {
        let x = SO3::exp(&reals(&xi));
        let back = SO3::from_matrix(&x.to_matrix());
        assert_close(&floats(&x.ominus(&back)), &[0.0; 3], 1e-10);
    }
}

#[test]
fn so3_adjoint_identity() {
    let x = SO3::exp(&reals(&[0.1, 0.2, 0.3]));
    let xi = reals(&[0.3, -0.2, 0.1]);
    let left = SO3::exp(&x.adjoint().mul_vec(&xi));
    let right = x.compose(&SO3::exp(&xi)).compose(&x.inverse());
    assert_close(&floats(&left.ominus(&right)), &[0.0; 3], 1e-10);
}

#[test]
fn so3_hat_and_vee() {
    let xi = reals(&[1.0, 2.0, 3.0]);
    let hat = SO3::hat(&xi);
    assert_eq!(entries(&hat), vec![0.0, -3.0, 2.0, 3.0, 0.0, -1.0, -2.0, 1.0, 0.0]);
    assert_eq!(floats(&SO3::vee(&hat)), vec![1.0, 2.0, 3.0]);
    assert_eq!(
        entries(&SO3::hat_swap(&xi)),
        vec![-0.0, 3.0, -2.0, -3.0, -0.0, 1.0, 2.0, -1.0, -0.0]
    );
}

#[test]
fn se3_log_inverts_exp() {
    for xi in [
        [0.1, 0.2, 0.3, 1.0, 2.0, 3.0],
        [1e-4, 0.0, 0.0, 1.0, 2.0, 3.0],
        [0.0, 0.0, 0.0, -1.0, 0.5, 0.25],
    ] {
        let back = SE3::exp(&reals(&xi)).log();
        assert_close(&floats(&back), &xi, 1e-10);
    }
}

#[test]
fn matrix() {
    let xi = reals(&[0.1, 0.2, 0.3, 1.0, 2.0, 3.0]);
    let se3 = SE3::exp(&xi);
    let mat = se3.to_matrix();
    let se3_hat = SE3::from_matrix(&mat);
    assert_float_eq(&floats(&se3.ominus(&se3_hat)), &[0.0; 6]);
}

#[test]
fn se3_apply_rotates_then_translates() {
    let x = SE3::exp(&reals(&[0.1, 0.2, 0.3, 1.0, 2.0, 3.0]));
    let v = reals(&[1.0, 2.0, 3.0]);
    let moved = x.apply(&v);
    let rotated = x.rot().apply(&v);
    assert_close(
        &floats(&moved),
        &[rotated[0].0 + x.x.0, rotated[1].0 + x.y.0, rotated[2].0 + x.z.0],
        1e-15,
    );
    let hom = x.to_matrix().mul_vec(&reals(&[1.0, 2.0, 3.0, 1.0]));
    assert_close(&floats(&hom)[..3], &floats(&moved), 1e-12);
}

#[test]
fn se3_group_axioms_hold() {
    let x = SE3::exp(&reals(&[0.1, 0.2, 0.3, 1.0, 2.0, 3.0]));
    let y = SE3::exp(&reals(&[-0.3, 0.1, 0.5, 0.2, -0.1, 0.7]));
    let z = SE3::exp(&reals(&[0.2, -0.4, 0.1, -1.0, 0.0, 0.3]));
    assert_close(&floats(&x.compose(&SE3::identity()).ominus(&x)), &[0.0; 6], 1e-10);
    assert_close(&floats(&x.compose(&x.inverse()).log()), &[0.0; 6], 1e-10);
    let left = x.compose(&y).compose(&z);
    let right = x.compose(&y.compose(&z));
    assert_close(&floats(&left.ominus(&right)), &[0.0; 6], 1e-10);
    let xi = [0.05, -0.02, 0.3, 0.1, 0.2, -0.3];
    assert_close(&floats(&x.oplus(&reals(&xi)).ominus(&x)), &xi, 1e-10);
}

#[test]
fn se3_adjoint_identity() {
    let x = SE3::exp(&reals(&[0.1, 0.2, 0.3, 1.0, 2.0, 3.0]));
    let xi = reals(&[0.3, -0.2, 0.1, 0.5, -0.4, 0.2]);
    let left = SE3::exp(&x.adjoint().mul_vec(&xi));
    let right = x.compose(&SE3::exp(&xi)).compose(&x.inverse());
    assert_close(&floats(&left.ominus(&right)), &[0.0; 6], 1e-10);
}

#[test]
fn se3_hat_inverts_vee() {
    let xi = reals(&[1.0, 2.0, 3.0, 4.0, 5.0, 6.0]);
    let hat = SE3::hat(&xi);
    assert_eq!(
        entries(&hat),
        vec![0.0, -3.0, 2.0, 4.0, 3.0, 0.0, -1.0, 5.0, -2.0, 1.0, 0.0, 6.0, 0.0, 0.0, 0.0, 0.0]
    );
    assert_eq!(floats(&SE3::vee(&hat)), vec![1.0, 2.0, 3.0, 4.0, 5.0, 6.0]);
}

#[test]
fn so2_exp_log_and_compose() {
    let x = SO2::exp(&reals(&[0.7]));
    assert_close(&[x.a.0, x.b.0], &[0.7f64.cos(), 0.7f64.sin()], 1e-15);
    assert_close(&floats(&x.log()), &[0.7], 1e-12);
    let y = SO2::from_theta(&R(-0.2));
    assert_close(&floats(&x.compose(&y).log()), &[0.5], 1e-12);
    assert_close(&floats(&x.compose(&x.inverse()).log()), &[0.0], 1e-12);
    assert_close(&entries(&x.to_matrix()), &[x.a.0, -x.b.0, x.b.0, x.a.0], 0.0);
    assert_close(&floats(&x.apply(&reals(&[1.0, 0.0]))), &[x.a.0, x.b.0], 1e-15);
    assert_eq!(entries(&x.adjoint()), vec![1.0]);
}

#[test]
fn se2_log_inverts_exp_and_adjoint_identity() {
    for xi in [[0.3, 1.0, 2.0], [1e-4, 1.0, 2.0], [0.0, -1.0, 0.5], [-1.2, 0.3, 0.1]] {
        let back = SE2::exp(&reals(&xi)).log();
        assert_close(&floats(&back), &xi, 1e-10);
    }
    let x = SE2::exp(&reals(&[0.3, 1.0, 2.0]));
    let xi = reals(&[0.2, -0.4, 0.6]);
    let left = SE2::exp(&x.adjoint().mul_vec(&xi));
    let right = x.compose(&SE2::exp(&xi)).compose(&x.inverse());
    assert_close(&floats(&left.ominus(&right)), &[0.0; 3], 1e-10);
    assert_close(&floats(&x.compose(&x.inverse()).log()), &[0.0; 3], 1e-10);
    let hat = SE2::hat(&xi);
    assert_eq!(floats(&SE2::vee(&hat)), floats(&xi));
}

#[test]
fn vector_is_its_own_tangent() {
    let x = VectorVar::<3, R>::new(R(1.0), R(2.0), R(3.0));
    let y = VectorVar::<3, R>::from_array(&[R(0.5), R(-1.0), R(4.0)]);
    assert_eq!(floats(&x.log()), vec![1.0, 2.0, 3.0]);
    assert_eq!(floats(&x.compose(&y).log()), vec![1.5, 1.0, 7.0]);
    assert_eq!(floats(&x.inverse().log()), vec![-1.0, -2.0, -3.0]);
    assert_eq!(floats(&VectorVar::<3, R>::identity().log()), vec![0.0, 0.0, 0.0]);
    assert_eq!(floats(&VectorVar::<3, R>::exp(&reals(&[3.0, 2.0, 1.0])).log()), vec![3.0, 2.0, 1.0]);
    assert_eq!(floats(&x.ominus(&y)), vec![0.5, 3.0, -1.0]);
    assert_eq!(floats(&x.minus(&y).log()), vec![0.5, 3.0, -1.0]);
    assert_eq!(x.dim(), 3);
    assert!(VectorVar::<3, R>::from_vec(reals(&[1.0, 2.0])).is_none());
}

#[test]
fn so3_log_beyond_half_a_turn_follows_the_sign_of_w() {
    let half = 100.0f64.to_radians();
    let q = SO3::from_xyzw(R(0.0), R(0.0), R(half.sin()), R(half.cos()));
    let n = half.sin();
    let w = half.cos();
    let want = -2.0 * (-n).atan2(-w) / n * n;
    assert_close(&floats(&q.log()), &[0.0, 0.0, want], 1e-15);
    let tiny = SO3::from_xyzw(R(1e-4), R(0.0), R(0.0), R(-1.0));
    let scale = 2.0 / -1.0 - (2.0 / 3.0) * 1e-8 / -1.0;
    assert_close(&floats(&tiny.log()), &[1e-4 * scale, 0.0, 0.0], 1e-18);
}

#[test]
fn so3_parts_and_casts() {
    let q = SO3::from_vec(&reals(&[0.1, 0.2, 0.3, 0.9]));
    assert_eq!([q.x().0, q.y().0, q.z().0, q.w().0], [0.1, 0.2, 0.3, 0.9]);
    let lifted = q.lift();
    assert_eq!(lifted.w.re().0, 0.9);
    assert_eq!(lifted.w.eps_len(), 0);
    let seed = SO3::<R>::dual_exp(1, 5);
    assert_eq!([seed.x.eps(1).0, seed.y.eps(2).0, seed.z.eps(3).0], [0.5, 0.5, 0.5]);
    assert_eq!([seed.x.eps(0).0, seed.x.eps(2).0, seed.w.re().0], [0.0, 0.0, 1.0]);
    assert_eq!(seed.x.eps_len(), 5);
    let id = SO3::<R>::identity();
    assert_eq!([id.x.0, id.y.0, id.z.0, id.w.0], [0.0, 0.0, 0.0, 1.0]);
    assert_eq!(q.dim(), 3);
}
