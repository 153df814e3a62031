use factrs::containers::{Factor, FactorBuilder, Key, Values};
use factrs::linalg::diff::{
    checked_total_dim, dual_vars_of, jacobian_of_duals, nudge_vec, over_two_vec, perturb,
    total_dim_of, values_of_duals, NumericalDiff,
};
use factrs::linalg::dual::{tangent_seeds, Dual};
use factrs::linalg::matrix::Matrix;
use factrs::linalg::{Numeric, Scalar};
use factrs::linear::LinearSystem;
use factrs::noise::{GaussianNoise, Noise};
use factrs::residuals::{BetweenResidual, CoreResidual, Liftable, PriorResidual, Residual};
use factrs::robust::{Robust, L2};
use factrs::variables::vector::lift_vec;
use factrs::variables::{MatrixLieGroup, Var, Variable, VectorVar, SE2, SE3, SO2, SO3};

#[derive(Clone, Copy, Debug, PartialEq)]
struct R(f64);

impl Scalar for R {
    fn ratio(num: i64, den: i64) -> R {
        R(num as f64 / den as f64)
    }

    fn add(self, rhs: R) -> R {
        R(self.0 + rhs.0)
    }

    fn sub(self, rhs: R) -> R {
        R(self.0 - rhs.0)
    }

    fn mul(self, rhs: R) -> R {
        R(self.0 * rhs.0)
    }

    fn div(self, rhs: R) -> R {
        R(self.0 / rhs.0)
    }

    fn neg(self) -> R {
        R(-self.0)
    }

    fn sqrt(self) -> R {
        R(self.0.sqrt())
    }

    fn sin(self) -> R {
        R(self.0.sin())
    }

    fn cos(self) -> R {
        R(self.0.cos())
    }

    fn atan2(self, rhs: R) -> R {
        R(self.0.atan2(rhs.0))
    }

    fn exp(self) -> R {
        R(self.0.exp())
    }

    fn ln(self) -> R {
        R(self.0.ln())
    }

    fn lt(self, rhs: R) -> bool {
        self.0 < rhs.0
    }

    fn equals(self, rhs: R) -> bool {
        self.0 == rhs.0
    }

    fn is_sign_positive(self) -> bool {
        self.0.is_sign_positive()
    }
}

impl Numeric for R {
    type M = R;

    fn view(&self) -> R {
        *self
    }

    fn from_ratio(num: i64, den: i64) -> R {
        R(num as f64 / den as f64)
    }

    fn copy(&self) -> R {
        *self
    }

    fn add(&self, rhs: &R) -> R {
        R(self.0 + rhs.0)
    }

    fn sub(&self, rhs: &R) -> R {
        R(self.0 - rhs.0)
    }

    fn mul(&self, rhs: &R) -> R {
        R(self.0 * rhs.0)
    }

    fn div(&self, rhs: &R) -> R {
        R(self.0 / rhs.0)
    }

    fn neg(&self) -> R {
        R(-self.0)
    }

    fn sqrt(&self) -> R {
        R(self.0.sqrt())
    }

    fn sin(&self) -> R {
        R(self.0.sin())
    }

    fn cos(&self) -> R {
        R(self.0.cos())
    }

    fn atan2(&self, rhs: &R) -> R {
        R(self.0.atan2(rhs.0))
    }

    fn exp(&self) -> R {
        R(self.0.exp())
    }

    fn ln(&self) -> R {
        R(self.0.ln())
    }

    fn lt(&self, rhs: &R) -> bool {
        self.0 < rhs.0
    }

    fn equals(&self, rhs: &R) -> bool {
        self.0 == rhs.0
    }

    fn is_sign_positive(&self) -> bool {
        self.0.is_sign_positive()
    }
}

fn reals(v: &[f64]) -> Vec<R> {
    v.iter().map(|x| R(*x)).collect()
}

fn floats(v: &[R]) -> Vec<f64> {
    v.iter().map(|x| x.0).collect()
}

fn close(got: &[f64], want: &[f64], tol: f64) {
    assert_eq!(got.len(), want.len());
    for (g, w) in got.iter().zip(want) {
        assert!((g - w).abs() <= tol, "got {:?}, want {:?}", got, want);
    }
}

fn kinds() -> Vec<Var<R>> {
    vec![
        Var::SO2(SO2::from_theta(&R(0.3))),
        Var::SE2(SE2::new(&R(0.3), R(1.0), R(2.0))),
        Var::SO3(SO3::exp(&reals(&[0.1, 0.2, 0.3]))),
        Var::SE3(SE3::exp(&reals(&[0.1, 0.2, 0.3, 1.0, 2.0, 3.0]))),
        Var::Vector(reals(&[1.0, 2.0])),
    ]
}

#[test]
fn every_kind_of_variable_is_a_group() {
    let dims = [1, 3, 3, 6, 2];
    for (v, dim) in kinds().iter().zip(dims) {
        assert_eq!(v.dim(), dim);
        assert!(v.same_kind(&v.copy()));
        let zero = vec![0.0; dim];
        close(&floats(&v.compose(&v.inverse()).log()), &zero, 1e-12);
        close(&floats(&v.ominus(v)), &zero, 1e-12);
        close(&floats(&v.minus(v).log()), &zero, 1e-12);
        let xi: Vec<f64> = (0..dim).map(|i| 0.01 * (i as f64 + 1.0)).collect();
        close(&floats(&v.exp_like(&reals(&xi)).log()), &xi, 1e-12);
        close(&floats(&v.oplus(&reals(&xi)).ominus(v)), &xi, 1e-12);
        let lifted = v.lift();
        assert_eq!(lifted.dim(), dim);
        close(
            &lifted.log().iter().map(|d| d.re().0).collect::<Vec<_>>(),
            &floats(&v.log()),
            1e-15,
        );
        assert!(lifted.log().iter().all(|d| (0..4).all(|j| d.eps(j).0 == 0.0)));
    }
    let all = kinds();
    for (i, a) in all.iter().enumerate() {
        for (j, b) in all.iter().enumerate() {
            assert_eq!(a.same_kind(b), i == j);
        }
    }
}

#[test]
fn the_derivative_of_the_retraction_at_zero_is_the_identity() {
    for v in kinds() {
        let n = v.dim() + 3;
        let dual = v.dual(2, n);
        // log(x^-1 * (x (+) xi)) = xi, whose Jacobian at zero is the identity.
        let back = v.lift().inverse().compose(&dual).log();
        for (i, d) in back.iter().enumerate() {
            assert!(d.re().0.abs() <= 1e-12);
            for j in 0..n {
                let want = if j == i + 2 { 1.0 } else { 0.0 };
                assert!((d.eps(j).0 - want).abs() <= 1e-12, "entry {} {}", i, j);
            }
        }
    }
}

#[test]
fn seeds_and_layout_of_dual_variables() {
    let seeds = tangent_seeds::<R>(2, 1, 4);
    assert_eq!(seeds.len(), 2);
    assert_eq!(floats(&(0..4).map(|j| seeds[0].eps(j)).collect::<Vec<_>>()), [0.0, 1.0, 0.0, 0.0]);
    assert_eq!(floats(&(0..4).map(|j| seeds[1].eps(j)).collect::<Vec<_>>()), [0.0, 0.0, 1.0, 0.0]);
    assert_eq!(seeds[0].re().0, 0.0);

    let lifted = lift_vec(&reals(&[3.0, 4.0]));
    assert_eq!([lifted[0].re().0, lifted[1].re().0], [3.0, 4.0]);
    assert_eq!(lifted[1].eps_len(), 0);

    let vars = vec![Var::Vector(reals(&[5.0])), Var::Vector(reals(&[6.0, 7.0]))];
    assert_eq!(total_dim_of(&vars), 3);
    assert_eq!(checked_total_dim(&vars), Some(3));
    let duals = dual_vars_of(&vars);
    let flat: Vec<Dual<R>> = duals.iter().flat_map(|v| v.log()).collect();
    assert_eq!(floats(&values_of_duals(&flat)), vec![5.0, 6.0, 7.0]);
    let jac = jacobian_of_duals(&flat, 3);
    assert_eq!((jac.nrows(), jac.ncols()), (3, 3));
    for i in 0..3 {
        for j in 0..3 {
            assert_eq!(jac.get(i, j).0, if i == j { 1.0 } else { 0.0 });
        }
    }
}

#[test]
fn central_differences_nudge_one_direction_at_a_time() {
    assert_eq!(NumericalDiff::<3>::step::<R>().0, 0.001);
    assert_eq!(NumericalDiff::<0>::step::<R>().0, 1.0);
    assert_eq!(NumericalDiff::<18>::step::<R>().0, 1e-18);
    assert_eq!(floats(&nudge_vec(3, 1, &R(0.5))), vec![0.0, 0.5, 0.0]);
    assert_eq!(floats(&over_two_vec(&reals(&[1.0, -3.0]), &R(0.25))), vec![2.0, -6.0]);
    let vars = vec![Var::Vector(reals(&[5.0])), Var::Vector(reals(&[6.0, 7.0]))];
    let moved = perturb(&vars, &reals(&[0.0, 0.0, 0.5]));
    assert_eq!(floats(&moved[0].log()), vec![5.0]);
    assert_eq!(floats(&moved[1].log()), vec![6.0, 7.5]);
    let r = NumericalDiff::<4>::jacobian(
        |v: &Vec<Var<R>>| {
            let a = v[0].log();
            let b = v[1].log();
            vec![Numeric::mul(&a[0], &b[0]), Numeric::mul(&b[1], &b[1])]
        },
        &vars,
    );
    assert_eq!(floats(&r.value), vec![30.0, 49.0]);
    let want = [[6.0, 5.0, 0.0], [0.0, 0.0, 14.0]];
    for i in 0..2 {
        for j in 0..3 {
            assert!((r.diff.get(i, j).0 - want[i][j]).abs() <= 1e-8);
        }
    }
}

#[test]
fn vectors_as_variables() {
    let v = VectorVar::<2, R>::new(R(1.0), R(2.0));
    assert_eq!(floats(v.as_vec()), vec![1.0, 2.0]);
    assert_eq!(v.index(1).0, 2.0);
    assert_eq!(VectorVar::<1, R>::new(R(4.0)).index(0).0, 4.0);
    assert_eq!(
        floats(VectorVar::<6, R>::new(R(1.0), R(2.0), R(3.0), R(4.0), R(5.0), R(6.0)).as_vec()),
        vec![1.0, 2.0, 3.0, 4.0, 5.0, 6.0]
    );
    let lifted = v.lift();
    assert_eq!(lifted.index(0).re().0, 1.0);
    let seed = VectorVar::<2, R>::dual_exp(1, 3);
    assert_eq!(floats(&(0..3).map(|j| seed.index(1).eps(j)).collect::<Vec<_>>()), [0.0, 0.0, 1.0]);
    let dual = v.dual(0, 2);
    assert_eq!(dual.index(1).re().0, 2.0);
    assert_eq!([dual.index(1).eps(0).0, dual.index(1).eps(1).0], [0.0, 1.0]);
    assert_eq!(floats(&v.oplus_left(&reals(&[1.0, 1.0])).log()), vec![2.0, 3.0]);
    assert_eq!(floats(&v.oplus_right(&reals(&[1.0, 1.0])).log()), vec![2.0, 3.0]);
    let w = VectorVar::<2, R>::new(R(0.5), R(0.5));
    assert_eq!(floats(&v.ominus_left(&w)), vec![0.5, 1.5]);
    assert_eq!(floats(&v.ominus_right(&w)), vec![0.5, 1.5]);
    assert_eq!(floats(&v.copy().log()), vec![1.0, 2.0]);
}

#[test]
fn left_and_right_retraction_differ_by_the_adjoint() {
    let x = SE3::exp(&reals(&[0.1, 0.2, 0.3, 1.0, 2.0, 3.0]));
    let xi = reals(&[0.01, -0.02, 0.03, 0.1, 0.2, -0.1]);
    let left = x.oplus_left(&x.adjoint().mul_vec(&xi));
    let right = x.oplus_right(&xi);
    close(&floats(&left.ominus(&right)), &[0.0; 6], 1e-12);
    let y = SE3::exp(&reals(&[0.3, -0.2, 0.1, 0.0, 1.0, -1.0]));
    let l = x.ominus_left(&y);
    let r = x.ominus_right(&y);
    close(&floats(&y.adjoint().mul_vec(&r)), &floats(&l), 1e-12);
}

#[test]
fn hat_swaps_with_the_vector_it_acts_on() {
    let xi = reals(&[0.3, -0.1, 0.2]);
    let p = reals(&[1.0, 2.0, 3.0]);
    let by_hat = SO3::hat(&xi).mul_vec(&p);
    let by_swap = SO3::hat_swap(&p).mul_vec(&xi);
    close(&floats(&by_hat), &floats(&by_swap), 1e-15);

    let xi = reals(&[0.3, -0.1, 0.2, 0.5, 0.6, 0.7]);
    let hom = SE3::hat(&xi).mul_vec(&reals(&[1.0, 2.0, 3.0, 1.0]));
    let by_swap = SE3::hat_swap(&p).mul_vec(&xi);
    close(&floats(&hom)[..3], &floats(&by_swap), 1e-15);

    let xi = reals(&[0.3, 0.5, 0.6]);
    let q = reals(&[1.0, 2.0]);
    let hom = SE2::hat(&xi).mul_vec(&reals(&[1.0, 2.0, 1.0]));
    let by_swap = SE2::hat_swap(&q).mul_vec(&xi);
    close(&floats(&hom)[..2], &floats(&by_swap), 1e-15);

    let by_hat = SO2::hat(&reals(&[0.3])).mul_vec(&q);
    let by_swap = SO2::hat_swap(&q).mul_vec(&reals(&[0.3]));
    close(&floats(&by_hat), &floats(&by_swap), 1e-15);
    assert_eq!(floats(&SO2::vee(&SO2::hat(&reals(&[0.3])))), vec![0.3]);
}

#[test]
fn planar_motions_from_and_to_matrices() {
    let x = SE2::new(&R(0.3), R(1.0), R(2.0));
    close(&floats(&x.xy()), &[1.0, 2.0], 0.0);
    close(&[x.rot().to_theta().0], &[0.3], 1e-15);
    let back = SE2::from_matrix(&x.to_matrix());
    close(&floats(&x.ominus(&back)), &[0.0; 3], 1e-15);
    let y = SE2::from_rot_trans(SO2::from_theta(&R(-0.2)), R(0.5), R(0.0));
    let product = x.to_matrix().matmul(&y.to_matrix());
    let composed = x.compose(&y).to_matrix();
    for i in 0..3 {
        for j in 0..3 {
            assert!((product.get(i, j).0 - composed.get(i, j).0).abs() <= 1e-15);
        }
    }
    close(&floats(&x.apply(&reals(&[1.0, 0.0]))), &[1.0 + 0.3f64.cos(), 2.0 + 0.3f64.sin()], 1e-15);
    let r = SO2::from_matrix(&x.rot().to_matrix());
    assert_eq!([r.a.0, r.b.0], [x.rot.a.0, x.rot.b.0]);
    let z = SE3::from_rot_trans(SO3::identity(), &reals(&[1.0, 2.0, 3.0]));
    close(&floats(&z.xyz()), &[1.0, 2.0, 3.0], 0.0);
    close(&floats(&z.log()), &[0.0, 0.0, 0.0, 1.0, 2.0, 3.0], 1e-15);
}

#[test]
fn residuals_provided() {
    let prior = PriorResidual::new(Var::Vector(reals(&[1.0, 1.0])));
    assert_eq!(prior.dim(), 2);
    assert_eq!(floats(&prior.residual1(&Var::Vector(reals(&[3.0, 0.0])))), vec![2.0, -1.0]);
    assert_eq!(floats(&prior.copy().prior.log()), vec![1.0, 1.0]);
    let between = BetweenResidual::new(Var::Vector(reals(&[1.0])));
    assert_eq!(between.dim(), 1);
    let x = Var::Vector(reals(&[3.0]));
    let y = Var::Vector(reals(&[5.5]));
    assert_eq!(floats(&between.residual2(&x, &y)), vec![1.5]);
    let any = CoreResidual::Between(between.copy());
    assert_eq!((any.arity(), any.dim()), (2, 1));
    assert!(any.accepts(&vec![x.copy(), y.copy()]));
    assert!(!any.accepts(&vec![x.copy()]));
    assert!(!any.accepts(&vec![x.copy(), Var::Vector(reals(&[1.0, 2.0]))]));
    assert_eq!(floats(&any.eval(&vec![x.copy(), y.copy()])), vec![1.5]);
    assert_eq!(Residual::arity(&any.copy()), 2);
    let lifted = Liftable::lift(&any);
    let out = lifted.eval(&vec![x.dual(0, 2), y.dual(1, 2)]);
    assert_eq!(out[0].re().0, 1.5);
    assert_eq!([out[0].eps(0).0, out[0].eps(1).0], [-1.0, 1.0]);
    let rotation = CoreResidual::Prior(PriorResidual::new(Var::SO2(SO2::from_theta(&R(0.5)))));
    assert_eq!((rotation.arity(), rotation.dim()), (1, 1));
    close(&floats(&rotation.eval(&vec![Var::SO2(SO2::from_theta(&R(0.75)))])), &[0.25], 1e-15);
}

#[test]
fn a_factor_shows_its_parts() {
    let key = Key::new(b'x', 1);
    assert_eq!((key.tag, key.index), (b'x', 1));
    assert_eq!(key.code(), (b'x' as u128) << 64 | 1);
    let noise = Noise::from_gaussian(&GaussianNoise::<2, R>::from_diag_sigmas(R(0.5), R(0.25)));
    let residual = CoreResidual::Prior(PriorResidual::new(Var::Vector(reals(&[1.0, 1.0]))));
    let factor: Factor<R, CoreResidual<R>> =
        FactorBuilder::new(residual, vec![key]).noise(noise).robust(Robust::L2(L2::new())).build().unwrap();
    assert_eq!(factor.dim(), 2);
    assert_eq!(factor.keys(), &vec![key]);
    assert_eq!(factor.noise().dim(), 2);
    assert_eq!(factor.residual().arity(), 1);
    assert_eq!(factor.robust().weight(&R(9.0)).0, 1.0);
    let mut values = Values::new();
    values.insert(key, Var::Vector(reals(&[2.0, 3.0])));
    assert!(values.contains(&key));
    assert!(!values.contains(&Key::new(b'y', 1)));
    assert_eq!(floats(&values.var_at(0).log()), vec![2.0, 3.0]);
    assert_eq!(floats(&factor.gather(&values).ok().unwrap()[0].log()), vec![2.0, 3.0]);
    assert_eq!(floats(&factor.error(&values).ok().unwrap()), vec![2.0, 8.0]);
    assert_eq!(factor.cost(&values).ok().unwrap().0, 34.0);
    let covs = GaussianNoise::<3, R>::from_diag_covs(R(0.25), R(4.0), R(1.0));
    assert_eq!(floats(&covs.sqrt_inf().diag()), vec![2.0, 0.5, 1.0]);
}

#[test]
fn a_linear_system_of_ones_own() {
    let jacobian = Matrix::from_rows(vec![reals(&[2.0, 0.0]), reals(&[0.0, 4.0])], 2);
    let sys = LinearSystem::new(jacobian, reals(&[2.0, -4.0]));
    assert_eq!(sys.width(), 2);
    assert_eq!(floats(sys.error()), vec![2.0, -4.0]);
    assert_eq!(floats(&sys.solve(None).unwrap()), vec![-1.0, 1.0]);
    let degenerate = LinearSystem::new(Matrix::<R>::zeros(2, 2), reals(&[1.0, 1.0]));
    assert!(degenerate.solve(None).is_none());
    assert!(degenerate.solve(Some(&R(10.0))).is_none());
}
