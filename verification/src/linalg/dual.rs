//! Dual numbers: a value together with its partial derivatives, for
//! forward-mode differentiation.

use vstd::prelude::*;
use crate::linalg::numeric::{models, one, zero, Numeric, Scalar};

verus! {

/// The model of a dual number: the value `re` and the partial derivatives
/// `eps`. Derivatives past the end of `eps` are zero, so a constant has an
/// empty `eps`.
pub struct DualModel<V> {
    pub re: V,
    pub eps: Seq<V>,
}

impl<V: Scalar> DualModel<V> {
    /// The partial derivative with respect to direction `i`.
    pub open spec fn eps_at(self, i: int) -> V {
        if 0 <= i < self.eps.len() {
            self.eps[i]
        } else {
            zero()
        }
    }

    /// A constant: no derivative.
    pub open spec fn constant(re: V) -> Self {
        DualModel { re, eps: Seq::empty() }
    }

    /// The value `re` with `n` derivatives: `weight` in direction `idx`, zero
    /// in the others.
    pub open spec fn seeded(re: V, idx: int, n: nat, weight: V) -> Self {
        DualModel {
            re,
            eps: Seq::new(
                n,
                |i: int|
                    if i == idx {
                        weight
                    } else {
                        zero::<V>()
                    },
            ),
        }
    }

    /// The variable of direction `idx` among `n`: its derivative is one in
    /// direction `idx` and zero in the others.
    pub open spec fn variable(re: V, idx: int, n: nat) -> Self {
        DualModel::seeded(re, idx, n, one())
    }

    /// The chain rule for a function of one argument: the result has the
    /// given value, and each derivative of `self` multiplied by `slope`.
    pub open spec fn chain(self, value: V, slope: V) -> Self {
        DualModel { re: value, eps: Seq::new(self.eps.len(), |i: int| self.eps[i].mul(slope)) }
    }

    /// The chain rule for a function of two arguments with the partial
    /// derivatives `da` and `db`: in each direction, the derivative of `a`
    /// times `da` plus that of `b` times `db`.
    pub open spec fn chain2(a: Self, b: Self, value: V, da: V, db: V) -> Self {
        DualModel {
            re: value,
            eps: Seq::new(
                if a.eps.len() >= b.eps.len() {
                    a.eps.len()
                } else {
                    b.eps.len()
                },
                |i: int| a.eps_at(i).mul(da).add(b.eps_at(i).mul(db)),
            ),
        }
    }
}

impl<V: Scalar> Scalar for DualModel<V> {
    open spec fn ratio(num: i64, den: i64) -> Self {
        DualModel::constant(V::ratio(num, den))
    }

    open spec fn add(self, rhs: Self) -> Self {
        DualModel::chain2(self, rhs, self.re.add(rhs.re), one(), one())
    }

    open spec fn sub(self, rhs: Self) -> Self {
        DualModel::chain2(self, rhs, self.re.sub(rhs.re), one(), one::<V>().neg())
    }

    open spec fn mul(self, rhs: Self) -> Self {
        DualModel::chain2(self, rhs, self.re.mul(rhs.re), rhs.re, self.re)
    }

    open spec fn div(self, rhs: Self) -> Self {
        DualModel::chain2(
            self,
            rhs,
            self.re.div(rhs.re),
            one::<V>().div(rhs.re),
            self.re.div(rhs.re.mul(rhs.re)).neg(),
        )
    }

    open spec fn neg(self) -> Self {
        self.chain(self.re.neg(), one::<V>().neg())
    }

    open spec fn sqrt(self) -> Self {
        self.chain(self.re.sqrt(), one::<V>().div(V::ratio(2, 1).mul(self.re.sqrt())))
    }

    open spec fn sin(self) -> Self {
        self.chain(self.re.sin(), self.re.cos())
    }

    open spec fn cos(self) -> Self {
        self.chain(self.re.cos(), self.re.sin().neg())
    }

    open spec fn atan2(self, rhs: Self) -> Self {
        DualModel::chain2(
            self,
            rhs,
            self.re.atan2(rhs.re),
            rhs.re.div(rhs.re.mul(rhs.re).add(self.re.mul(self.re))),
            self.re.div(rhs.re.mul(rhs.re).add(self.re.mul(self.re))).neg(),
        )
    }

    open spec fn exp(self) -> Self {
        self.chain(self.re.exp(), self.re.exp())
    }

    open spec fn ln(self) -> Self {
        self.chain(self.re.ln(), one::<V>().div(self.re))
    }

    open spec fn lt(self, rhs: Self) -> bool {
        self.re.lt(rhs.re)
    }

    open spec fn equals(self, rhs: Self) -> bool {
        self.re.equals(rhs.re)
    }

    open spec fn is_sign_positive(self) -> bool {
        self.re.is_sign_positive()
    }
}

/// A dual number over the scalar `T`.
pub struct Dual<T> {
    re: T,
    eps: Vec<T>,
}

impl<T: Numeric> Dual<T> {
    /// A constant.
    pub fn constant(re: T) -> (r: Self)
        ensures
            r@ == DualModel::constant(re@),
    {
        let r = Dual { re, eps: Vec::new() };
        assert(r@.eps =~= Seq::empty());
        r
    }

    /// The variable of direction `idx` among `n`.
    pub fn variable(re: T, idx: usize, n: usize) -> (r: Self)
        ensures
            r@ == DualModel::variable(re@, idx as int, n as nat),
    {
        let unit = T::from_ratio(1, 1);
        Dual::seeded(re, idx, n, &unit)
    }

    /// The value `re` with `n` derivatives: `weight` in direction `idx`, zero
    /// in the others.
    pub fn seeded(re: T, idx: usize, n: usize, weight: &T) -> (r: Self)
        ensures
            r@ == DualModel::seeded(re@, idx as int, n as nat, weight@),
    {
        let mut eps: Vec<T> = Vec::new();
        let mut i: usize = 0;
        while i < n
            invariant
                i <= n,
                eps@.len() == i,
                forall|k: int|
                    0 <= k < i ==> (#[trigger] eps@[k])@ == (if k == idx {
                        weight@
                    } else {
                        zero::<T::M>()
                    }),
            decreases n - i,
        {
            if i == idx {
                eps.push(weight.copy());
            } else {
                eps.push(T::from_ratio(0, 1));
            }
            i += 1;
        }
        let r = Dual { re, eps };
        assert(r@.eps =~= DualModel::seeded(re@, idx as int, n as nat, weight@).eps);
        r
    }

    /// The value.
    pub fn re(&self) -> (r: T)
        ensures
            r@ == self@.re,
    {
        self.re.copy()
    }

    /// The number of derivatives held.
    pub fn eps_len(&self) -> (r: usize)
        ensures
            r == self@.eps.len(),
    {
        self.eps.len()
    }

    /// The partial derivative with respect to direction `i`.
    pub fn eps(&self, i: usize) -> (r: T)
        ensures
            r@ == self@.eps_at(i as int),
    {
        if i < self.eps.len() {
            self.eps[i].copy()
        } else {
            T::from_ratio(0, 1)
        }
    }

    fn chain(&self, value: T, slope: &T) -> (r: Self)
        ensures
            r@ == self@.chain(value@, slope@),
    {
        let n: usize = self.eps.len();
        let mut eps: Vec<T> = Vec::new();
        let mut i: usize = 0;
        while i < n
            invariant
                n == self.eps@.len(),
                i <= n,
                eps@.len() == i,
                forall|k: int| 0 <= k < i ==> (#[trigger] eps@[k])@ == self@.eps[k].mul(slope@),
            decreases n - i,
        {
            eps.push(self.eps[i].mul(slope));
            i += 1;
        }
        let r = Dual { re: value, eps };
        assert(r@.eps =~= self@.chain(value@, slope@).eps);
        r
    }

    fn chain2(a: &Self, b: &Self, value: T, da: &T, db: &T) -> (r: Self)
        ensures
            r@ == DualModel::chain2(a@, b@, value@, da@, db@),
    {
        let n: usize = if a.eps.len() >= b.eps.len() {
            a.eps.len()
        } else {
            b.eps.len()
        };
        let mut eps: Vec<T> = Vec::new();
        let mut i: usize = 0;
        while i < n
            invariant
                n == (if a@.eps.len() >= b@.eps.len() {
                    a@.eps.len()
                } else {
                    b@.eps.len()
                }),
                i <= n,
                eps@.len() == i,
                forall|k: int|
                    0 <= k < i ==> (#[trigger] eps@[k])@ == a@.eps_at(k).mul(da@).add(
                        b@.eps_at(k).mul(db@),
                    ),
            decreases n - i,
        {
            let x = a.eps(i);
            let y = b.eps(i);
            eps.push(x.mul(da).add(&y.mul(db)));
            i += 1;
        }
        let r = Dual { re: value, eps };
        assert(r@.eps =~= DualModel::chain2(a@, b@, value@, da@, db@).eps);
        r
    }
}

impl<T: Numeric> Numeric for Dual<T> {
    type M = DualModel<T::M>;

    closed spec fn view(&self) -> DualModel<T::M> {
        DualModel { re: self.re@, eps: models(self.eps@) }
    }

    fn from_ratio(num: i64, den: i64) -> (r: Self) {
        let r = Dual::constant(T::from_ratio(num, den));
        assert(DualModel::<T::M>::ratio(num, den) == DualModel::constant(T::M::ratio(num, den)));
        r
    }

    fn copy(&self) -> (r: Self) {
        let r = Dual { re: self.re.copy(), eps: crate::linalg::dense::vcopy(&self.eps) };
        assert(r@.eps =~= self@.eps);
        r
    }

    fn add(&self, rhs: &Self) -> (r: Self) {
        let unit = T::from_ratio(1, 1);
        let r = Dual::chain2(self, rhs, self.re.add(&rhs.re), &unit, &unit);
        assert(self@.add(rhs@) == DualModel::chain2(
            self@,
            rhs@,
            self@.re.add(rhs@.re),
            one::<T::M>(),
            one::<T::M>(),
        ));
        r
    }

    fn sub(&self, rhs: &Self) -> (r: Self) {
        let unit = T::from_ratio(1, 1);
        let r = Dual::chain2(self, rhs, self.re.sub(&rhs.re), &unit, &unit.neg());
        assert(self@.sub(rhs@) == DualModel::chain2(
            self@,
            rhs@,
            self@.re.sub(rhs@.re),
            one::<T::M>(),
            one::<T::M>().neg(),
        ));
        r
    }

    fn mul(&self, rhs: &Self) -> (r: Self) {
        let r = Dual::chain2(self, rhs, self.re.mul(&rhs.re), &rhs.re, &self.re);
        assert(self@.mul(rhs@) == DualModel::chain2(
            self@,
            rhs@,
            self@.re.mul(rhs@.re),
            rhs@.re,
            self@.re,
        ));
        r
    }

    fn div(&self, rhs: &Self) -> (r: Self) {
        let unit = T::from_ratio(1, 1);
        let da = unit.div(&rhs.re);
        let db = self.re.div(&rhs.re.mul(&rhs.re)).neg();
        let r = Dual::chain2(self, rhs, self.re.div(&rhs.re), &da, &db);
        assert(self@.div(rhs@) == DualModel::chain2(
            self@,
            rhs@,
            self@.re.div(rhs@.re),
            one::<T::M>().div(rhs@.re),
            self@.re.div(rhs@.re.mul(rhs@.re)).neg(),
        ));
        r
    }

    fn neg(&self) -> (r: Self) {
        let unit = T::from_ratio(1, 1);
        let r = self.chain(self.re.neg(), &unit.neg());
        assert(self@.neg() == self@.chain(self@.re.neg(), one::<T::M>().neg()));
        r
    }

    fn sqrt(&self) -> (r: Self) {
        let unit = T::from_ratio(1, 1);
        let two = T::from_ratio(2, 1);
        let slope = unit.div(&two.mul(&self.re.sqrt()));
        let r = self.chain(self.re.sqrt(), &slope);
        assert(self@.sqrt() == self@.chain(
            self@.re.sqrt(),
            one::<T::M>().div(T::M::ratio(2, 1).mul(self@.re.sqrt())),
        ));
        r
    }

    fn sin(&self) -> (r: Self) {
        let r = self.chain(self.re.sin(), &self.re.cos());
        assert(self@.sin() == self@.chain(self@.re.sin(), self@.re.cos()));
        r
    }

    fn cos(&self) -> (r: Self) {
        let r = self.chain(self.re.cos(), &self.re.sin().neg());
        assert(self@.cos() == self@.chain(self@.re.cos(), self@.re.sin().neg()));
        r
    }

    fn atan2(&self, rhs: &Self) -> (r: Self) {
        let da = rhs.re.div(&rhs.re.mul(&rhs.re).add(&self.re.mul(&self.re)));
        let db = self.re.div(&rhs.re.mul(&rhs.re).add(&self.re.mul(&self.re))).neg();
        let r = Dual::chain2(self, rhs, self.re.atan2(&rhs.re), &da, &db);
        assert(self@.atan2(rhs@) == DualModel::chain2(
            self@,
            rhs@,
            self@.re.atan2(rhs@.re),
            rhs@.re.div(rhs@.re.mul(rhs@.re).add(self@.re.mul(self@.re))),
            self@.re.div(rhs@.re.mul(rhs@.re).add(self@.re.mul(self@.re))).neg(),
        ));
        r
    }

    fn exp(&self) -> (r: Self) {
        let r = self.chain(self.re.exp(), &self.re.exp());
        assert(self@.exp() == self@.chain(self@.re.exp(), self@.re.exp()));
        r
    }

    fn ln(&self) -> (r: Self) {
        let unit = T::from_ratio(1, 1);
        let r = self.chain(self.re.ln(), &unit.div(&self.re));
        assert(self@.ln() == self@.chain(self@.re.ln(), one::<T::M>().div(self@.re)));
        r
    }

    fn lt(&self, rhs: &Self) -> (r: bool) {
        let r = self.re.lt(&rhs.re);
        assert(self@.lt(rhs@) == self@.re.lt(rhs@.re));
        r
    }

    fn equals(&self, rhs: &Self) -> (r: bool) {
        let r = self.re.equals(&rhs.re);
        assert(self@.equals(rhs@) == self@.re.equals(rhs@.re));
        r
    }

    fn is_sign_positive(&self) -> (r: bool) {
        let r = self.re.is_sign_positive();
        assert(self@.is_sign_positive() == self@.re.is_sign_positive());
        r
    }
}

/// The tangent vector zero of dimension `dim`, whose derivatives are the
/// directions `idx`, `idx + 1`, .. among `n`.
pub open spec fn tangent_seed<V: Scalar>(dim: nat, idx: int, n: nat) -> Seq<DualModel<V>> {
    Seq::new(dim, |i: int| DualModel::variable(V::ratio(0, 1), idx + i, n))
}

/// The tangent vector zero of dimension `dim`, whose derivatives are the
/// directions `idx`, `idx + 1`, .. among `n`.
pub fn tangent_seeds<T: Numeric>(dim: usize, idx: usize, n: usize) -> (r: Vec<Dual<T>>)
    requires
        idx + dim <= n,
    ensures
        r@.len() == dim,
        models(r@) == tangent_seed::<T::M>(dim as nat, idx as int, n as nat),
{
    let mut seeds: Vec<Dual<T>> = Vec::new();
    let mut i: usize = 0;
    while i < dim
        invariant
            idx + dim <= n,
            i <= dim,
            seeds@.len() == i,
            forall|k: int|
                0 <= k < i ==> (#[trigger] seeds@[k])@ == DualModel::variable(
                    T::M::ratio(0, 1),
                    idx + k,
                    n as nat,
                ),
        decreases dim - i,
    {
        seeds.push(Dual::variable(T::from_ratio(0, 1), idx + i, n));
        i += 1;
    }
    assert(models(seeds@) =~= tangent_seed::<T::M>(dim as nat, idx as int, n as nat));
    seeds
}

} // verus!
