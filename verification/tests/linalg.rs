use factrs::linalg::cholesky::{cholesky, solve_lower, solve_lower_transposed, spd_inverse};
use factrs::linalg::dense::{
    dot, norm_inf, norm_squared, slice_copy, vadd, vcopy, vneg, vscale, vsub, vzeros,
};
use factrs::linalg::matrix::Matrix;
use factrs::linalg::numeric::{abs, max};
use factrs::linalg::{Numeric, Scalar};

#[derive(Clone, Copy, Debug, PartialEq)]
struct R(f64);

impl Scalar for R {
    fn ratio(num: i64, den: i64) -> R {
        R(num as f64 / den as f64)
    }

    fn add(self, rhs: R) -> R {
        R(self.0 + rhs.0)
    }

    fn sub(self, rhs: R) -> R {
        R(self.0 - rhs.0)
    }

    fn mul(self, rhs: R) -> R {
        R(self.0 * rhs.0)
    }

    fn div(self, rhs: R) -> R {
        R(self.0 / rhs.0)
    }

    fn neg(self) -> R {
        R(-self.0)
    }

    fn sqrt(self) -> R {
        R(self.0.sqrt())
    }

    fn sin(self) -> R {
        R(self.0.sin())
    }

    fn cos(self) -> R {
        R(self.0.cos())
    }

    fn atan2(self, rhs: R) -> R {
        R(self.0.atan2(rhs.0))
    }

    fn exp(self) -> R {
        R(self.0.exp())
    }

    fn ln(self) -> R {
        R(self.0.ln())
    }

    fn lt(self, rhs: R) -> bool {
        self.0 < rhs.0
    }

    fn equals(self, rhs: R) -> bool {
        self.0 == rhs.0
    }

    fn is_sign_positive(self) -> bool {
        self.0.is_sign_positive()
    }
}

impl Numeric for R {
    type M = R;

    fn view(&self) -> R {
        *self
    }

    fn from_ratio(num: i64, den: i64) -> R {
        R(num as f64 / den as f64)
    }

    fn copy(&self) -> R {
        *self
    }

    fn add(&self, rhs: &R) -> R {
        R(self.0 + rhs.0)
    }

    fn sub(&self, rhs: &R) -> R {
        R(self.0 - rhs.0)
    }

    fn mul(&self, rhs: &R) -> R {
        R(self.0 * rhs.0)
    }

    fn div(&self, rhs: &R) -> R {
        R(self.0 / rhs.0)
    }

    fn neg(&self) -> R {
        R(-self.0)
    }

    fn sqrt(&self) -> R {
        R(self.0.sqrt())
    }

    fn sin(&self) -> R {
        R(self.0.sin())
    }

    fn cos(&self) -> R {
        R(self.0.cos())
    }

    fn atan2(&self, rhs: &R) -> R {
        R(self.0.atan2(rhs.0))
    }

    fn exp(&self) -> R {
        R(self.0.exp())
    }

    fn ln(&self) -> R {
        R(self.0.ln())
    }

    fn lt(&self, rhs: &R) -> bool {
        self.0 < rhs.0
    }

    fn equals(&self, rhs: &R) -> bool {
        self.0 == rhs.0
    }

    fn is_sign_positive(&self) -> bool {
        self.0.is_sign_positive()
    }
}

fn reals(v: &[f64]) -> Vec<R> {
    v.iter().map(|x| R(*x)).collect()
}

fn floats(v: &[R]) -> Vec<f64> {
    v.iter().map(|x| x.0).collect()
}

fn matrix(rows: &[&[f64]]) -> Matrix<R> {
    Matrix::from_rows(rows.iter().map(|r| reals(r)).collect(), rows[0].len())
}

fn entries(m: &Matrix<R>) -> Vec<Vec<f64>> {
    (0..m.nrows()).map(|i| floats(m.row(i))).collect()
}

#[test]
fn vectors() {
    let a = reals(&[1.0, -2.0, 3.0]);
    let b = reals(&[0.5, 4.0, -1.0]);
    assert_eq!(floats(&vadd(&a, &b)), vec![1.5, 2.0, 2.0]);
    assert_eq!(floats(&vsub(&a, &b)), vec![0.5, -6.0, 4.0]);
    assert_eq!(floats(&vscale(&a, &R(2.0))), vec![2.0, -4.0, 6.0]);
    assert_eq!(floats(&vneg(&a)), vec![-1.0, 2.0, -3.0]);
    assert_eq!(floats(&vcopy(&a)), vec![1.0, -2.0, 3.0]);
    assert_eq!(floats(&vzeros::<R>(2)), vec![0.0, 0.0]);
    assert_eq!(dot(&a, &b).0, 0.5 - 8.0 - 3.0);
    assert_eq!(norm_squared(&a).0, 14.0);
    assert_eq!(norm_inf(&a).0, 3.0);
    assert_eq!(norm_inf(&reals(&[])).0, 0.0);
    assert_eq!(floats(&slice_copy(&a, 1, 3)), vec![-2.0, 3.0]);
    assert_eq!(abs(&R(-2.5)).0, 2.5);
    assert_eq!(max(&R(-2.5), &R(1.0)).0, 1.0);
    assert_eq!(R::from_ratio(3, 4).0, 0.75);
}

#[test]
fn matrices() {
    let a = matrix(&[&[1.0, 2.0, 3.0], &[4.0, 5.0, 6.0]]);
    let b = matrix(&[&[1.0, 0.0], &[0.0, 1.0], &[2.0, -1.0]]);
    assert_eq!((a.nrows(), a.ncols()), (2, 3));
    assert_eq!(entries(&a.transpose()), vec![vec![1.0, 4.0], vec![2.0, 5.0], vec![3.0, 6.0]]);
    assert_eq!(entries(&a.matmul(&b)), vec![vec![7.0, -1.0], vec![16.0, -1.0]]);
    assert_eq!(floats(&a.mul_vec(&reals(&[1.0, 1.0, 1.0]))), vec![6.0, 15.0]);
    assert_eq!(entries(&a.add(&a)), vec![vec![2.0, 4.0, 6.0], vec![8.0, 10.0, 12.0]]);
    assert_eq!(entries(&a.sub(&a)), vec![vec![0.0; 3], vec![0.0; 3]]);
    assert_eq!(entries(&a.scale(&R(0.5))), vec![vec![0.5, 1.0, 1.5], vec![2.0, 2.5, 3.0]]);
    assert_eq!(entries(&a.neg()), vec![vec![-1.0, -2.0, -3.0], vec![-4.0, -5.0, -6.0]]);
    assert_eq!(entries(&a.block(0, 1, 2, 2)), vec![vec![2.0, 3.0], vec![5.0, 6.0]]);
    assert_eq!(
        entries(&a.with_block(1, 0, &matrix(&[&[9.0, 8.0]]))),
        vec![vec![1.0, 2.0, 3.0], vec![9.0, 8.0, 6.0]]
    );
    let mut c = a.copy();
    c.add_block(0, 1, &matrix(&[&[1.0, 1.0], &[1.0, 1.0]]));
    assert_eq!(entries(&c), vec![vec![1.0, 3.0, 4.0], vec![4.0, 6.0, 7.0]]);
    c.set(1, 2, R(0.0));
    assert_eq!(c.get(1, 2).0, 0.0);
    assert_eq!(entries(&Matrix::<R>::identity(2)), vec![vec![1.0, 0.0], vec![0.0, 1.0]]);
    assert_eq!(entries(&Matrix::<R>::zeros(1, 2)), vec![vec![0.0, 0.0]]);
    assert_eq!(
        entries(&Matrix::from_diagonal(&reals(&[2.0, 3.0]))),
        vec![vec![2.0, 0.0], vec![0.0, 3.0]]
    );
    assert_eq!(entries(&Matrix::column(&reals(&[2.0, 3.0]))), vec![vec![2.0], vec![3.0]]);
    assert_eq!(floats(&matrix(&[&[1.0, 2.0], &[3.0, 4.0]]).diag()), vec![1.0, 4.0]);
}

#[test]
fn small_inverses() {
    let m = matrix(&[&[4.0, 7.0], &[2.0, 6.0]]);
    let inv = m.inverse2();
    assert_eq!(entries(&inv), vec![vec![0.6, -0.7], vec![-0.2, 0.4]]);
    let m = matrix(&[&[2.0, 0.0, 1.0], &[1.0, 3.0, 0.0], &[0.0, 1.0, 4.0]]);
    let product = entries(&m.matmul(&m.inverse3()));
    for (i, row) in product.iter().enumerate() {
        for (j, e) in row.iter().enumerate() {
            let want = if i == j { 1.0 } else { 0.0 };
            assert!((e - want).abs() <= 1e-15);
        }
    }
}

#[test]
fn cholesky_factor_and_solves() {
    let a = matrix(&[&[4.0, 12.0, -16.0], &[12.0, 37.0, -43.0], &[-16.0, -43.0, 98.0]]);
    let l = cholesky(&a).unwrap();
    assert_eq!(
        entries(&l),
        vec![vec![2.0, 0.0, 0.0], vec![6.0, 1.0, 0.0], vec![-8.0, 5.0, 3.0]]
    );
    let b = reals(&[2.0, 7.0, 0.0]);
    let y = solve_lower(&l, &b);
    assert_eq!(floats(&y), vec![1.0, 1.0, 1.0]);
    let x = solve_lower_transposed(&l, &y);
    for (got, want) in floats(&a.mul_vec(&x)).iter().zip([2.0, 7.0, 0.0]) {
        assert!((got - want).abs() <= 1e-12);
    }
    let inv = spd_inverse(&a).unwrap();
    let product = entries(&a.matmul(&inv));
    for (i, row) in product.iter().enumerate() {
        for (j, e) in row.iter().enumerate() {
            let want = if i == j { 1.0 } else { 0.0 };
            assert!((e - want).abs() <= 1e-10);
        }
    }
    assert!(cholesky(&matrix(&[&[1.0, 2.0], &[2.0, 1.0]])).is_none());
    assert!(cholesky(&matrix(&[&[0.0]])).is_none());
    assert!(spd_inverse(&matrix(&[&[1.0, 0.0], &[0.0, -1.0]])).is_none());
    assert_eq!(entries(&cholesky(&Matrix::<R>::zeros(0, 0)).unwrap()), Vec::<Vec<f64>>::new());
}
