use factrs::linalg::diff::ForwardProp;
use factrs::linalg::dual::Dual;
use factrs::linalg::{Numeric, Scalar};
use num_dual::{Dual64, DualNum};

#[derive(Clone, Copy, Debug, PartialEq)]
struct R(f64);

impl Scalar for R {
    fn ratio(num: i64, den: i64) -> R {
        R(num as f64 / den as f64)
    }

    fn add(self, rhs: R) -> R {
        R(self.0 + rhs.0)
    }

    fn sub(self, rhs: R) -> R {
        R(self.0 - rhs.0)
    }

    fn mul(self, rhs: R) -> R {
        R(self.0 * rhs.0)
    }

    fn div(self, rhs: R) -> R {
        R(self.0 / rhs.0)
    }

    fn neg(self) -> R {
        R(-self.0)
    }

    fn sqrt(self) -> R {
        R(self.0.sqrt())
    }

    fn sin(self) -> R {
        R(self.0.sin())
    }

    fn cos(self) -> R {
        R(self.0.cos())
    }

    fn atan2(self, rhs: R) -> R {
        R(self.0.atan2(rhs.0))
    }

    fn exp(self) -> R {
        R(self.0.exp())
    }

    fn ln(self) -> R {
        R(self.0.ln())
    }

    fn lt(self, rhs: R) -> bool {
        self.0 < rhs.0
    }

    fn equals(self, rhs: R) -> bool {
        self.0 == rhs.0
    }

    fn is_sign_positive(self) -> bool {
        self.0.is_sign_positive()
    }
}

impl Numeric for R {
    type M = R;

    fn view(&self) -> R {
        *self
    }

    fn from_ratio(num: i64, den: i64) -> R {
        R(num as f64 / den as f64)
    }

    fn copy(&self) -> R {
        *self
    }

    fn add(&self, rhs: &R) -> R {
        R(self.0 + rhs.0)
    }

    fn sub(&self, rhs: &R) -> R {
        R(self.0 - rhs.0)
    }

    fn mul(&self, rhs: &R) -> R {
        R(self.0 * rhs.0)
    }

    fn div(&self, rhs: &R) -> R {
        R(self.0 / rhs.0)
    }

    fn neg(&self) -> R {
        R(-self.0)
    }

    fn sqrt(&self) -> R {
        R(self.0.sqrt())
    }

    fn sin(&self) -> R {
        R(self.0.sin())
    }

    fn cos(&self) -> R {
        R(self.0.cos())
    }

    fn atan2(&self, rhs: &R) -> R {
        R(self.0.atan2(rhs.0))
    }

    fn exp(&self) -> R {
        R(self.0.exp())
    }

    fn ln(&self) -> R {
        R(self.0.ln())
    }

    fn lt(&self, rhs: &R) -> bool {
        self.0 < rhs.0
    }

    fn equals(&self, rhs: &R) -> bool {
        self.0 == rhs.0
    }

    fn is_sign_positive(&self) -> bool {
        self.0.is_sign_positive()
    }
}

fn agree(ours: (R, R), theirs: Dual64) {
    assert!((ours.0 .0 - theirs.re).abs() <= 1e-15, "{} against {}", ours.0 .0, theirs.re);
    assert!((ours.1 .0 - theirs.eps).abs() <= 1e-14, "{} against {}", ours.1 .0, theirs.eps);
}

fn theirs(x: f64) -> Dual64 {
    Dual64::new(x, 1.0)
}

#[test]
fn dual_numbers_agree_with_num_dual() {
    for x in [0.7, 1.3, 2.9, 0.01] {
        agree(ForwardProp::derivative(|d: Dual<R>| d.sin(), &R(x)), theirs(x).sin());
        agree(ForwardProp::derivative(|d: Dual<R>| d.cos(), &R(x)), theirs(x).cos());
        agree(ForwardProp::derivative(|d: Dual<R>| d.sqrt(), &R(x)), theirs(x).sqrt());
        agree(ForwardProp::derivative(|d: Dual<R>| d.exp(), &R(x)), theirs(x).exp());
        agree(ForwardProp::derivative(|d: Dual<R>| d.ln(), &R(x)), theirs(x).ln());
        agree(ForwardProp::derivative(|d: Dual<R>| d.neg(), &R(x)), -theirs(x));
        agree(ForwardProp::derivative(|d: Dual<R>| d.mul(&d), &R(x)), theirs(x) * theirs(x));
        agree(
            ForwardProp::derivative(|d: Dual<R>| d.add(&d.mul(&d)), &R(x)),
            theirs(x) + theirs(x) * theirs(x),
        );
        agree(
            ForwardProp::derivative(|d: Dual<R>| d.sub(&d.sin()), &R(x)),
            theirs(x) - theirs(x).sin(),
        );
        agree(
            ForwardProp::derivative(|d: Dual<R>| d.sin().div(&d), &R(x)),
            theirs(x).sin() / theirs(x),
        );
        agree(
            ForwardProp::derivative(|d: Dual<R>| d.atan2(&d.cos()), &R(x)),
            theirs(x).atan2(theirs(x).cos()),
        );
        agree(
            ForwardProp::derivative(|d: Dual<R>| Dual::constant(R(2.0)).atan2(&d), &R(x)),
            Dual64::from_re(2.0).atan2(theirs(x)),
        );
    }
}
