use factrs::linalg::{Numeric, Scalar};
use factrs::robust::{GemanMcClure, Huber, Robust, L2};

#[derive(Clone, Copy, Debug, PartialEq)]
struct R(f64);

impl Scalar for R {
    fn ratio(num: i64, den: i64) -> R {
        R(num as f64 / den as f64)
    }

    fn add(self, rhs: R) -> R {
        R(self.0 + rhs.0)
    }

    fn sub(self, rhs: R) -> R {
        R(self.0 - rhs.0)
    }

    fn mul(self, rhs: R) -> R {
        R(self.0 * rhs.0)
    }

    fn div(self, rhs: R) -> R {
        R(self.0 / rhs.0)
    }

    fn neg(self) -> R {
        R(-self.0)
    }

    fn sqrt(self) -> R {
        R(self.0.sqrt())
    }

    fn sin(self) -> R {
        R(self.0.sin())
    }

    fn cos(self) -> R {
        R(self.0.cos())
    }

    fn atan2(self, rhs: R) -> R {
        R(self.0.atan2(rhs.0))
    }

    fn exp(self) -> R {
        R(self.0.exp())
    }

    fn ln(self) -> R {
        R(self.0.ln())
    }

    fn lt(self, rhs: R) -> bool {
        self.0 < rhs.0
    }

    fn equals(self, rhs: R) -> bool {
        self.0 == rhs.0
    }

    fn is_sign_positive(self) -> bool {
        self.0.is_sign_positive()
    }
}

impl Numeric for R {
    type M = R;

    fn view(&self) -> R {
        *self
    }

    fn from_ratio(num: i64, den: i64) -> R {
        R(num as f64 / den as f64)
    }

    fn copy(&self) -> R {
        *self
    }

    fn add(&self, rhs: &R) -> R {
        R(self.0 + rhs.0)
    }

    fn sub(&self, rhs: &R) -> R {
        R(self.0 - rhs.0)
    }

    fn mul(&self, rhs: &R) -> R {
        R(self.0 * rhs.0)
    }

    fn div(&self, rhs: &R) -> R {
        R(self.0 / rhs.0)
    }

    fn neg(&self) -> R {
        R(-self.0)
    }

    fn sqrt(&self) -> R {
        R(self.0.sqrt())
    }

    fn sin(&self) -> R {
        R(self.0.sin())
    }

    fn cos(&self) -> R {
        R(self.0.cos())
    }

    fn atan2(&self, rhs: &R) -> R {
        R(self.0.atan2(rhs.0))
    }

    fn exp(&self) -> R {
        R(self.0.exp())
    }

    fn ln(&self) -> R {
        R(self.0.ln())
    }

    fn lt(&self, rhs: &R) -> bool {
        self.0 < rhs.0
    }

    fn equals(&self, rhs: &R) -> bool {
        self.0 == rhs.0
    }

    fn is_sign_positive(&self) -> bool {
        self.0.is_sign_positive()
    }
}

#[test]
fn every_kernel_weighs_one_at_zero() {
    assert_eq!(L2::new().weight(&R(0.0)).0, 1.0);
    assert_eq!(Huber::new(R(1.345)).weight(&R(0.0)).0, 1.0);
    assert_eq!(Huber::<R>::default().weight(&R(0.0)).0, 1.0);
    assert_eq!(GemanMcClure::new(R(1.0)).weight(&R(0.0)).0, 1.0);
    assert_eq!(GemanMcClure::new(R(7.5)).weight(&R(0.0)).0, 1.0);
    assert_eq!(L2::new().loss(&R(0.0)).0, 0.0);
    assert_eq!(Huber::new(R(1.345)).loss(&R(0.0)).0, 0.0);
    assert_eq!(GemanMcClure::new(R(1.0)).loss(&R(0.0)).0, 0.0);
}

#[test]
fn l2_is_half_the_squared_norm() {
    assert_eq!(L2::new().loss(&R(9.0)).0, 4.5);
    assert_eq!(L2::new().weight(&R(9.0)).0, 1.0);
}

#[test]
fn huber_is_quadratic_up_to_the_threshold_and_linear_beyond() {
    let h = Huber::new(R(2.0));
    assert_eq!(h.loss(&R(3.0)).0, 1.5);
    assert_eq!(h.weight(&R(3.0)).0, 1.0);
    assert_eq!(h.loss(&R(4.0)).0, 2.0);
    assert_eq!(h.weight(&R(4.0)).0, 1.0);
    assert_eq!(h.loss(&R(9.0)).0, 2.0 * 3.0 - 2.0);
    assert_eq!(h.weight(&R(9.0)).0, 2.0 / 3.0);
    assert_eq!(Huber::<R>::default().k.0, 1.345);
}

#[test]
fn geman_mcclure_is_bounded() {
    let g = GemanMcClure::new(R(1.0));
    assert_eq!(g.loss(&R(1.0)).0, 0.25);
    assert_eq!(g.weight(&R(1.0)).0, 0.25);
    assert_eq!(g.loss(&R(3.0)).0, 0.5 * 3.0 / 4.0);
    assert_eq!(g.weight(&R(3.0)).0, 0.0625);
    let g = GemanMcClure::new(R(2.0));
    assert_eq!(g.loss(&R(6.0)).0, 0.5 * 2.0 * 6.0 / 8.0);
    assert_eq!(g.weight(&R(6.0)).0, 0.0625);
    assert!(g.loss(&R(1e12)).0 < 1.0);
}

#[test]
fn a_kernel_of_any_kind_is_the_kernel_it_holds() {
    let kernels = [
        Robust::L2(L2::new()),
        Robust::Huber(Huber::new(R(2.0))),
        Robust::GemanMcClure(GemanMcClure::new(R(2.0))),
    ];
    let losses: Vec<f64> = kernels.iter().map(|k| k.loss(&R(9.0)).0).collect();
    let weights: Vec<f64> = kernels.iter().map(|k| k.copy().weight(&R(9.0)).0).collect();
    assert_eq!(losses, vec![4.5, 4.0, 0.5 * 2.0 * 9.0 / 11.0]);
    assert_eq!(weights, vec![1.0, 2.0 / 3.0, (2.0 / 11.0) * (2.0 / 11.0)]);
}
