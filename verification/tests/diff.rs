use factrs::containers::{FactorBuilder, Key, Values};
use factrs::linalg::diff::{ForwardProp, NumericalDiff};
use factrs::linalg::dual::Dual;
use factrs::linalg::matrix::Matrix;
use factrs::linalg::{Numeric, Scalar};
use factrs::noise::{GaussianNoise, Noise};
use factrs::residuals::{BetweenResidual, CoreResidual, PriorResidual};
use factrs::robust::{Huber, Robust};
use factrs::variables::{MatrixLieGroup, Var, Variable, SE2, SE3, SO2, SO3};

#[derive(Clone, Copy, Debug, PartialEq)]
struct R(f64);

impl Scalar for R {
    fn ratio(num: i64, den: i64) -> R {
        R(num as f64 / den as f64)
    }

    fn add(self, rhs: R) -> R {
        R(self.0 + rhs.0)
    }

    fn sub(self, rhs: R) -> R {
        R(self.0 - rhs.0)
    }

    fn mul(self, rhs: R) -> R {
        R(self.0 * rhs.0)
    }

    fn div(self, rhs: R) -> R {
        R(self.0 / rhs.0)
    }

    fn neg(self) -> R {
        R(-self.0)
    }

    fn sqrt(self) -> R {
        R(self.0.sqrt())
    }

    fn sin(self) -> R {
        R(self.0.sin())
    }

    fn cos(self) -> R {
        R(self.0.cos())
    }

    fn atan2(self, rhs: R) -> R {
        R(self.0.atan2(rhs.0))
    }

    fn exp(self) -> R {
        R(self.0.exp())
    }

    fn ln(self) -> R {
        R(self.0.ln())
    }

    fn lt(self, rhs: R) -> bool {
        self.0 < rhs.0
    }

    fn equals(self, rhs: R) -> bool {
        self.0 == rhs.0
    }

    fn is_sign_positive(self) -> bool {
        self.0.is_sign_positive()
    }
}

impl Numeric for R {
    type M = R;

    fn view(&self) -> R {
        *self
    }

    fn from_ratio(num: i64, den: i64) -> R {
        R(num as f64 / den as f64)
    }

    fn copy(&self) -> R {
        *self
    }

    fn add(&self, rhs: &R) -> R {
        R(self.0 + rhs.0)
    }

    fn sub(&self, rhs: &R) -> R {
        R(self.0 - rhs.0)
    }

    fn mul(&self, rhs: &R) -> R {
        R(self.0 * rhs.0)
    }

    fn div(&self, rhs: &R) -> R {
        R(self.0 / rhs.0)
    }

    fn neg(&self) -> R {
        R(-self.0)
    }

    fn sqrt(&self) -> R {
        R(self.0.sqrt())
    }

    fn sin(&self) -> R {
        R(self.0.sin())
    }

    fn cos(&self) -> R {
        R(self.0.cos())
    }

    fn atan2(&self, rhs: &R) -> R {
        R(self.0.atan2(rhs.0))
    }

    fn exp(&self) -> R {
        R(self.0.exp())
    }

    fn ln(&self) -> R {
        R(self.0.ln())
    }

    fn lt(&self, rhs: &R) -> bool {
        self.0 < rhs.0
    }

    fn equals(&self, rhs: &R) -> bool {
        self.0 == rhs.0
    }

    fn is_sign_positive(&self) -> bool {
        self.0.is_sign_positive()
    }
}

fn reals(v: &[f64]) -> Vec<R> {
    v.iter().map(|x| R(*x)).collect()
}

fn entries(m: &Matrix<R>) -> Vec<f64> {
    let mut out = Vec::new();
    for i in 0..m.nrows() {
        for j in 0..m.ncols() {
            out.push(m.get(i, j).0);
        }
    }
    out
}

fn assert_close(got: &[f64], want: &[f64], tol: f64) {
    assert_eq!(got.len(), want.len());
    for (g, w) in got.iter().zip(want) {
        assert!((g - w).abs() <= tol, "got {:?}, want {:?}", got, want);
    }
}

// Equal up to the machine epsilon, or up to four units in the last place.
fn assert_float_eq(got: &[f64], want: &[f64]) {
    assert_eq!(got.len(), want.len());
    for (g, w) in got.iter().zip(want) {
        let ulps = (g.to_bits() as i64 - w.to_bits() as i64).abs();
        assert!(
            (g - w).abs() <= f64::EPSILON || (g.signum() == w.signum() && ulps <= 4),
            "got {:?}, want {:?}",
            got,
            want
        );
    }
}

fn consts(v: &[f64]) -> Vec<Dual<R>> {
    v.iter().map(|x| Dual::constant(R(*x))).collect()
}

#[test]
fn jacobian() {
    let t = SE3::exp(&reals(&[0.1, 0.2, 0.3, 0.4, 0.5, 0.6]));
    let rotate = |vars: &Vec<Var<Dual<R>>>| match &vars[0] {
        Var::SE3(r) => r.apply(&consts(&[1.0, 2.0, 3.0])),
        _ => unreachable!(),
    };
    let dx = ForwardProp::jacobian(rotate, &vec![Var::SE3(t.copy())]).diff;

    let dropper = Matrix::<R>::identity(4).block(0, 0, 3, 4);
    let v = reals(&[-1.0, -2.0, -3.0]);
    let jac = Matrix::<R>::zeros(4, 6)
        .with_block(0, 0, &SO3::hat(&v))
        .with_block(0, 3, &Matrix::identity(3));
    let dx_exp = dropper.matmul(&t.to_matrix()).matmul(&jac);

    println!("Expected: {}", format!("{:?}", entries(&dx_exp)));
    println!("Actual: {}", format!("{:?}", entries(&dx)));
    assert_float_eq(&entries(&dx), &entries(&dx_exp));
}

#[test]
fn dexp() {
    let xi = reals(&[0.1, 0.2, 0.3]);
    let got = SO3::dexp(&xi);

    let exp = NumericalDiff::<6>::jacobian_variable(
        |vars: &Vec<Var<R>>| match &vars[0] {
            Var::Vector(x) => Var::SO3(SO3::exp(x)),
            _ => unreachable!(),
        },
        &vec![Var::Vector(xi)],
    )
    .diff;

    println!("got: {}", format!("{:?}", entries(&got)));
    println!("exp: {}", format!("{:?}", entries(&exp)));
    assert_close(&entries(&got), &entries(&exp), 1e-6);
}

#[test]
fn dexp_left_is_the_transpose_of_dexp_right() {
    let xi = reals(&[0.1, 0.2, 0.3]);
    let right = SO3::dexp_right(&xi);
    let left = SO3::dexp_left(&xi);
    assert_close(&entries(&left), &entries(&right.transpose()), 1e-15);
    let tiny = reals(&[1e-5, 0.0, 0.0]);
    let m = entries(&SO3::dexp(&tiny));
    assert_close(&m, &[1.0, 0.0, 0.0, 0.0, 1.0, 0.5e-5, 0.0, -0.5e-5, 1.0], 1e-9);
}

#[test]
fn dual_arithmetic_follows_the_chain_rule() {
    let f = |x: Dual<R>| {
        let two = Dual::constant(R(2.0));
        x.mul(&x).sin().add(&x.div(&two).exp()).sub(&x.sqrt().ln()).add(&x.atan2(&two)).neg()
    };
    let x = 0.7f64;
    let (value, slope) = ForwardProp::derivative(f, &R(x));
    let want = -((x * x).sin() + (x / 2.0).exp() - x.sqrt().ln() + x.atan2(2.0));
    let dwant =
        -(2.0 * x * (x * x).cos() + 0.5 * (x / 2.0).exp() - 0.5 / x + 2.0 / (4.0 + x * x));
    assert!((value.0 - want).abs() <= 1e-15);
    assert!((slope.0 - dwant).abs() <= 1e-14, "{} against {}", slope.0, dwant);
    let plain = |x: R| R(-((x.0 * x.0).sin() + (x.0 / 2.0).exp() - x.0.sqrt().ln() + x.0.atan2(2.0)));
    let (again, numeric) = NumericalDiff::<6>::derivative(plain, &R(x));
    assert!((again.0 - want).abs() <= 1e-15);
    assert!((numeric.0 - dwant).abs() <= 1e-6);
}

#[test]
fn dual_holds_value_and_seeded_derivatives() {
    let d = Dual::seeded(R(3.0), 1, 3, &R(0.5));
    assert_eq!(d.re().0, 3.0);
    assert_eq!(d.eps_len(), 3);
    assert_eq!([d.eps(0).0, d.eps(1).0, d.eps(2).0, d.eps(7).0], [0.0, 0.5, 0.0, 0.0]);
    let c = Dual::constant(R(2.0));
    assert_eq!(c.eps_len(), 0);
    let p = d.mul(&c);
    assert_eq!(p.re().0, 6.0);
    assert_eq!([p.eps(0).0, p.eps(1).0, p.eps(2).0], [0.0, 1.0, 0.0]);
    assert!(c.lt(&d));
    assert!(!d.equals(&c));
}

#[test]
fn se3_dual_is_the_lifted_motion_times_the_seed() {
    let se3 = SE3::exp(&reals(&[0.1, 0.2, 0.3, 1.0, 2.0, 3.0]));
    assert_close(
        &se3.log().iter().map(|v| v.0).collect::<Vec<_>>(),
        &[0.1, 0.2, 0.3, 1.0, 2.0, 3.0],
        1e-10,
    );
    let dual = se3.dual(0, 6);
    let by_hand = se3.lift().compose(&SE3::<R>::dual_exp(0, 6));
    let parts = |p: &SE3<Dual<R>>| vec![
        p.rot.x.copy(),
        p.rot.y.copy(),
        p.rot.z.copy(),
        p.rot.w.copy(),
        p.x.copy(),
        p.y.copy(),
        p.z.copy(),
    ];
    for (a, b) in parts(&dual).iter().zip(parts(&by_hand).iter()) {
        assert_eq!(a.re().0, b.re().0);
        for j in 0..6 {
            assert!((a.eps(j).0 - b.eps(j).0).abs() <= 1e-6);
        }
    }
    // The derivatives of the seeded motion are those of the retraction.
    let numeric = NumericalDiff::<6>::jacobian(
        |vars: &Vec<Var<R>>| match &vars[0] {
            Var::SE3(p) => vec![p.rot.x, p.rot.y, p.rot.z, p.rot.w, p.x, p.y, p.z],
            _ => unreachable!(),
        },
        &vec![Var::SE3(se3.copy())],
    )
    .diff;
    for (i, a) in parts(&dual).iter().enumerate() {
        for j in 0..6 {
            assert!((a.eps(j).0 - numeric.get(i, j).0).abs() <= 1e-6);
        }
    }
}

fn numeric_blocks(residual: &CoreResidual<R>, noise: &Noise<R>, vars: &Vec<Var<R>>) -> Matrix<R> {
    NumericalDiff::<6>::jacobian(|v: &Vec<Var<R>>| noise.whiten_vec(&residual.eval(v)), vars).diff
}

fn check_jacobian(residual: CoreResidual<R>, vars: Vec<Var<R>>, noise: Noise<R>) {
    let keys: Vec<Key> = (0..vars.len()).map(|i| Key::new(b'x', i as u64)).collect();
    let mut values = Values::new();
    for (k, v) in keys.iter().zip(vars.iter()) {
        values.insert(*k, v.copy());
    }
    let numeric = numeric_blocks(&residual, &noise, &vars);
    let factor = FactorBuilder::new(residual, keys).noise(noise).build().unwrap();
    let lin = factor.linearize(&values).ok().unwrap();
    let mut col = 0;
    for (block, var) in lin.blocks.iter().zip(vars.iter()) {
        assert_eq!(block.nrows(), factor.dim());
        assert_eq!(block.ncols(), var.dim());
        let want = numeric.block(0, col, factor.dim(), var.dim());
        assert_close(&entries(block), &entries(&want), 1e-6);
        col += var.dim();
    }
    assert_eq!(col, numeric.ncols());
}

#[test]
fn forward_mode_matches_central_differences() {
    let so3 = |v: [f64; 3]| Var::SO3(SO3::exp(&reals(&v)));
    let se3 = |v: [f64; 6]| Var::SE3(SE3::exp(&reals(&v)));
    let se2 = |v: [f64; 3]| Var::SE2(SE2::exp(&reals(&v)));
    let so2 = |v: f64| Var::SO2(SO2::from_theta(&R(v)));
    let vec3 = |v: [f64; 3]| Var::Vector(reals(&v));
    check_jacobian(
        CoreResidual::Prior(PriorResidual::new(so3([0.1, 0.2, 0.3]))),
        vec![so3([0.3, -0.1, 0.2])],
        Noise::unit(3),
    );
    check_jacobian(
        CoreResidual::Between(BetweenResidual::new(so3([0.1, 0.2, 0.3]))),
        vec![so3([0.3, -0.1, 0.2]), so3([-0.2, 0.4, 0.1])],
        Noise::from_gaussian(&GaussianNoise::<3, R>::from_vec_sigma(&[R(0.1), R(0.2), R(0.5)])),
    );
    check_jacobian(
        CoreResidual::Prior(PriorResidual::new(se3([0.1, 0.2, 0.3, 1.0, 2.0, 3.0]))),
        vec![se3([0.3, -0.1, 0.2, 0.5, 1.5, -1.0])],
        Noise::from_gaussian(&GaussianNoise::<6, R>::from_split_sigma(&R(0.1), &R(2.0))),
    );
    check_jacobian(
        CoreResidual::Between(BetweenResidual::new(se3([0.1, 0.2, 0.3, 1.0, 2.0, 3.0]))),
        vec![se3([0.3, -0.1, 0.2, 0.5, 1.5, -1.0]), se3([0.0, 0.4, 0.1, -0.5, 0.0, 2.0])],
        Noise::unit(6),
    );
    check_jacobian(
        CoreResidual::Between(BetweenResidual::new(se2([0.3, 1.0, 2.0]))),
        vec![se2([0.1, -1.0, 0.5]), se2([-0.4, 0.2, 0.3])],
        Noise::unit(3),
    );
    check_jacobian(
        CoreResidual::Between(BetweenResidual::new(so2(0.3))),
        vec![so2(0.1), so2(-0.4)],
        Noise::unit(1),
    );
    check_jacobian(
        CoreResidual::Between(BetweenResidual::new(vec3([0.3, 1.0, 2.0]))),
        vec![vec3([0.1, -1.0, 0.5]), vec3([-0.4, 0.2, 0.3])],
        Noise::unit(3),
    );
}

#[test]
fn linearization_scales_error_and_blocks_by_the_root_of_the_weight() {
    let target = Var::Vector(reals(&[0.0, 0.0]));
    let at = Var::Vector(reals(&[3.0, 4.0]));
    let key = Key::new(b'x', 0);
    let mut values = Values::new();
    values.insert(key, at);
    let factor = FactorBuilder::new1(CoreResidual::Prior(PriorResidual::new(target)), key)
        .robust(Robust::Huber(Huber::new(R(1.0))))
        .build()
        .unwrap();
    // s = 25 is beyond k^2 = 1, so the weight is k / sqrt(s) = 1 / 5.
    let root = (1.0f64 / 5.0).sqrt();
    let lin = factor.linearize(&values).ok().unwrap();
    assert_close(&[lin.error[0].0, lin.error[1].0], &[3.0 * root, 4.0 * root], 1e-15);
    assert_close(&entries(&lin.blocks[0]), &[root, 0.0, 0.0, root], 1e-15);
    assert!((factor.cost(&values).ok().unwrap().0 - (5.0 - 0.5)).abs() <= 1e-15);
    let error = factor.error(&values).ok().unwrap();
    assert_close(&[error[0].0, error[1].0], &[3.0 * root, 4.0 * root], 1e-15);
}
