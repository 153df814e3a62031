//! Robust kernels: how much a residual of a given size counts.
//!
//! A kernel is a function `rho` of the squared norm `s` of the whitened
//! residual. Its `loss` is `rho(s)`, and its `weight` is the factor by which
//! the squared residual is scaled in the reweighted least squares problem.

use vstd::prelude::*;
use crate::linalg::numeric::{Numeric, Scalar};

verus! {

/// The loss of the least squares kernel: `s / 2`.
pub open spec fn l2_loss_model<V: Scalar>(s: V) -> V {
    s.div(V::ratio(2, 1))
}

/// The weight of the least squares kernel: one.
pub open spec fn l2_weight_model<V: Scalar>(s: V) -> V {
    V::ratio(1, 1)
}

/// The loss of Huber's kernel with threshold `k`: `s / 2` up to `s = k^2`,
/// and `k sqrt(s) - k^2 / 2` beyond.
pub open spec fn huber_loss_model<V: Scalar>(k: V, s: V) -> V {
    if k.mul(k).lt(s) {
        k.mul(s.sqrt()).sub(k.mul(k).div(V::ratio(2, 1)))
    } else {
        s.div(V::ratio(2, 1))
    }
}

/// The weight of Huber's kernel with threshold `k`: one up to `s = k^2`,
/// and `k / sqrt(s)` beyond.
pub open spec fn huber_weight_model<V: Scalar>(k: V, s: V) -> V {
    if k.mul(k).lt(s) {
        k.div(s.sqrt())
    } else {
        V::ratio(1, 1)
    }
}

/// The loss of the Geman-McClure kernel with scale `c`:
/// `(1 / 2) c s / (c + s)`.
pub open spec fn geman_mcclure_loss_model<V: Scalar>(c: V, s: V) -> V {
    V::ratio(1, 2).mul(c).mul(s).div(c.add(s))
}

/// The weight of the Geman-McClure kernel with scale `c`:
/// `(c / (c + s))^2`.
pub open spec fn geman_mcclure_weight_model<V: Scalar>(c: V, s: V) -> V {
    c.div(c.add(s)).mul(c.div(c.add(s)))
}

/// The least squares kernel.
pub struct L2 {}

impl L2 {
    /// The least squares kernel.
    pub fn new() -> (r: Self) {
        L2 {  }
    }

    /// The loss at the squared norm `s`.
    pub fn loss<T: Numeric>(&self, s: &T) -> (r: T)
        ensures
            r@ == l2_loss_model(s@),
    {
        s.div(&T::from_ratio(2, 1))
    }

    /// The weight at the squared norm `s`.
    pub fn weight<T: Numeric>(&self, s: &T) -> (r: T)
        ensures
            r@ == l2_weight_model(s@),
    {
        T::from_ratio(1, 1)
    }
}

/// Huber's kernel: quadratic up to the threshold `k`, linear beyond.
pub struct Huber<T> {
    pub k: T,
}

impl<T: Numeric> Huber<T> {
    /// The kernel with the threshold `k`.
    pub fn new(k: T) -> (r: Self)
        ensures
            r.k@ == k@,
    {
        Huber { k }
    }

    /// The kernel with the threshold 1.345.
    pub fn default() -> (r: Self)
        ensures
            r.k@ == T::M::ratio(1345, 1000),
    {
        Huber { k: T::from_ratio(1345, 1000) }
    }

    /// The loss at the squared norm `s`.
    pub fn loss(&self, s: &T) -> (r: T)
        ensures
            r@ == huber_loss_model(self.k@, s@),
    {
        let k = &self.k;
        if k.mul(k).lt(s) {
                k.mul(&s.sqrt()).sub(&k.mul(k).div(&T::from_ratio(2, 1)))
            } else {
                s.div(&T::from_ratio(2, 1))
            }
    }

    /// The weight at the squared norm `s`.
    pub fn weight(&self, s: &T) -> (r: T)
        ensures
            r@ == huber_weight_model(self.k@, s@),
    {
        let k = &self.k;
        if k.mul(k).lt(s) {
                k.div(&s.sqrt())
            } else {
                T::from_ratio(1, 1)
            }
    }
}

/// The Geman-McClure kernel with scale `c`, whose loss is bounded.
pub struct GemanMcClure<T> {
    pub c: T,
}

impl<T: Numeric> GemanMcClure<T> {
    /// The kernel with the scale `c`.
    pub fn new(c: T) -> (r: Self)
        ensures
            r.c@ == c@,
    {
        GemanMcClure { c }
    }

    /// The loss at the squared norm `s`.
    pub fn loss(&self, s: &T) -> (r: T)
        ensures
            r@ == geman_mcclure_loss_model(self.c@, s@),
    {
        let c = &self.c;
        T::from_ratio(1, 2).mul(c).mul(s).div(&c.add(s))
    }

    /// The weight at the squared norm `s`.
    pub fn weight(&self, s: &T) -> (r: T)
        ensures
            r@ == geman_mcclure_weight_model(self.c@, s@),
    {
        let c = &self.c;
        c.div(&c.add(s)).mul(&c.div(&c.add(s)))
    }
}

/// The model of a kernel of any of the three kinds.
pub enum RobustModel<V> {
    L2,
    Huber(V),
    GemanMcClure(V),
}

impl<V: Scalar> RobustModel<V> {
    /// The loss at the squared norm `s`.
    pub open spec fn loss(self, s: V) -> V {
        match self {
            RobustModel::L2 => l2_loss_model(s),
            RobustModel::Huber(k) => huber_loss_model(k, s),
            RobustModel::GemanMcClure(c) => geman_mcclure_loss_model(c, s),
        }
    }

    /// The weight at the squared norm `s`.
    pub open spec fn weight(self, s: V) -> V {
        match self {
            RobustModel::L2 => l2_weight_model(s),
            RobustModel::Huber(k) => huber_weight_model(k, s),
            RobustModel::GemanMcClure(c) => geman_mcclure_weight_model(c, s),
        }
    }
}

/// A kernel of any of the three kinds.
pub enum Robust<T> {
    L2(L2),
    Huber(Huber<T>),
    GemanMcClure(GemanMcClure<T>),
}

impl<T: Numeric> View for Robust<T> {
    type V = RobustModel<T::M>;

    open spec fn view(&self) -> RobustModel<T::M> {
        match self {
            Robust::L2(_) => RobustModel::L2,
            Robust::Huber(h) => RobustModel::Huber(h.k@),
            Robust::GemanMcClure(g) => RobustModel::GemanMcClure(g.c@),
        }
    }
}

impl<T: Numeric> Robust<T> {
    /// The loss at the squared norm `s`.
    pub fn loss(&self, s: &T) -> (r: T)
        ensures
            r@ == self@.loss(s@),
    {
        match self {
            Robust::L2(k) => k.loss(s),
            Robust::Huber(k) => k.loss(s),
            Robust::GemanMcClure(k) => k.loss(s),
        }
    }

    /// The weight at the squared norm `s`.
    pub fn weight(&self, s: &T) -> (r: T)
        ensures
            r@ == self@.weight(s@),
    {
        match self {
            Robust::L2(k) => k.weight(s),
            Robust::Huber(k) => k.weight(s),
            Robust::GemanMcClure(k) => k.weight(s),
        }
    }

    /// A copy.
    pub fn copy(&self) -> (r: Self)
        ensures
            r@ == self@,
    {
        match self {
            Robust::L2(_) => Robust::L2(L2::new()),
            Robust::Huber(k) => Robust::Huber(Huber::new(k.k.copy())),
            Robust::GemanMcClure(k) => Robust::GemanMcClure(GemanMcClure::new(k.c.copy())),
        }
    }
}

} // verus!
