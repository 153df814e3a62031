//! Vectors as variables: the group is addition, and `exp` and `log` change
//! nothing.

use vstd::prelude::*;
use crate::linalg::dense::{vadd, vadd_model, vcopy, vneg, vneg_model, vzeros, zeros_model};
use crate::linalg::dual::{tangent_seed, tangent_seeds, Dual, DualModel};
use crate::linalg::numeric::{models, Numeric, Scalar};
use crate::variables::traits::Variable;

verus! {

/// A vector of dimension `N`. Its model is the sequence of its entries.
pub struct VectorVar<const N: usize, T> {
    data: Vec<T>,
}

impl<const N: usize, T: Numeric> View for VectorVar<N, T> {
    type V = Seq<T::M>;

    closed spec fn view(&self) -> Seq<T::M> {
        models(self.data@)
    }
}

/// Every entry as a constant dual number.
pub open spec fn lift_model<V: Scalar>(x: Seq<V>) -> Seq<DualModel<V>> {
    Seq::new(x.len(), |i: int| DualModel::constant(x[i]))
}

/// The vector `x` with the tangent directions `idx`, `idx + 1`, .. among
/// `n` added to it.
pub open spec fn dual_model<V: Scalar>(x: Seq<V>, idx: int, n: nat) -> Seq<DualModel<V>> {
    vadd_model(lift_model(x), tangent_seed::<V>(x.len(), idx, n))
}

/// Every entry of `x` as a constant dual number.
pub fn lift_vec<T: Numeric>(x: &Vec<T>) -> (r: Vec<Dual<T>>)
    ensures
        r@.len() == x@.len(),
        models(r@) == lift_model(models(x@)),
{
    let mut out: Vec<Dual<T>> = Vec::new();
    let mut i: usize = 0;
    while i < x.len()
        invariant
            i <= x@.len(),
            out@.len() == i,
            forall|k: int| 0 <= k < i ==> (#[trigger] out@[k])@ == DualModel::constant(x@[k]@),
        decreases x@.len() - i,
    {
        out.push(Dual::constant(x[i].copy()));
        i += 1;
    }
    assert(models(out@) =~= lift_model(models(x@)));
    out
}

impl<const N: usize, T: Numeric> VectorVar<N, T> {
    /// The vector of the given entries.
    pub fn from_array(entries: &[T; N]) -> (r: Self)
        ensures
            r.wf(),
            r@ == models(entries@),
    {
        let mut data: Vec<T> = Vec::new();
        let mut i: usize = 0;
        while i < N
            invariant
                i <= N,
                data@.len() == i,
                forall|k: int| 0 <= k < i ==> (#[trigger] data@[k])@ == entries@[k]@,
            decreases N - i,
        {
            data.push(entries[i].copy());
            i += 1;
        }
        assert(models(data@) =~= models(entries@));
        VectorVar { data }
    }

    /// The vector of the given entries, where there are `N` of them.
    pub fn from_vec(data: Vec<T>) -> (r: Option<Self>)
        ensures
            r.is_some() <==> data@.len() == N,
            r matches Some(v) ==> v.wf() && v@ == models(data@),
    {
        if data.len() == N {
            Some(VectorVar { data })
        } else {
            None
        }
    }

    /// The entries.
    pub fn as_vec(&self) -> (r: &Vec<T>)
        requires
            self.wf(),
        ensures
            r@.len() == N,
            models(r@) == self@,
    {
        &self.data
    }

    /// Entry `i`.
    pub fn index(&self, i: usize) -> (r: T)
        requires
            self.wf(),
            i < N,
        ensures
            r@ == self@[i as int],
    {
        self.data[i].copy()
    }

    /// The same vector over dual numbers, as a constant.
    pub fn lift(&self) -> (r: VectorVar<N, Dual<T>>)
        requires
            self.wf(),
        ensures
            r.wf(),
            r@ == lift_model(self@),
    {
        VectorVar { data: lift_vec(&self.data) }
    }

    /// The tangent vector zero whose derivatives are the directions `idx`,
    /// `idx + 1`, .. among `n`.
    pub fn dual_exp(idx: usize, n: usize) -> (r: VectorVar<N, Dual<T>>)
        requires
            idx + N <= n,
        ensures
            r.wf(),
            r@ == tangent_seed::<T::M>(N as nat, idx as int, n as nat),
    {
        VectorVar { data: tangent_seeds::<T>(N, idx, n) }
    }

    /// The vector with the tangent directions `idx`, `idx + 1`, .. among `n`
    /// added to it.
    pub fn dual(&self, idx: usize, n: usize) -> (r: VectorVar<N, Dual<T>>)
        requires
            self.wf(),
            idx + N <= n,
        ensures
            r.wf(),
            r@ == dual_model(self@, idx as int, n as nat),
    {
        let casted = self.lift();
        let setup = Self::dual_exp(idx, n);
        casted.compose(&setup)
    }
}

impl<const N: usize, T: Numeric> Variable for VectorVar<N, T> {
    type T = T;

    open spec fn dim_model() -> nat {
        N as nat
    }

    closed spec fn wf(&self) -> bool {
        self.data@.len() == N
    }

    open spec fn identity_model() -> Seq<T::M> {
        zeros_model(N as nat)
    }

    open spec fn inverse_model(x: Seq<T::M>) -> Seq<T::M> {
        vneg_model(x)
    }

    open spec fn compose_model(x: Seq<T::M>, y: Seq<T::M>) -> Seq<T::M> {
        vadd_model(x, y)
    }

    open spec fn exp_model(xi: Seq<T::M>) -> Seq<T::M> {
        xi
    }

    open spec fn log_model(x: Seq<T::M>) -> Seq<T::M> {
        x
    }

    fn identity() -> (r: Self) {
        VectorVar { data: vzeros(N) }
    }

    fn inverse(&self) -> (r: Self) {
        VectorVar { data: vneg(&self.data) }
    }

    fn compose(&self, other: &Self) -> (r: Self) {
        VectorVar { data: vadd(&self.data, &other.data) }
    }

    fn exp(xi: &Vec<T>) -> (r: Self) {
        VectorVar { data: vcopy(xi) }
    }

    fn log(&self) -> (r: Vec<T>) {
        vcopy(&self.data)
    }

    fn copy(&self) -> (r: Self) {
        VectorVar { data: vcopy(&self.data) }
    }

    fn dim(&self) -> (r: usize) {
        N
    }
}

impl<T: Numeric> VectorVar<1, T> {
    /// The vector of the given entries.
    pub fn new(x: T) -> (r: Self)
        ensures
            r.wf(),
            r@ == seq![x@],
    {
        let mut data: Vec<T> = Vec::new();
        data.push(x);
        assert(models(data@) =~= seq![x@]);
        VectorVar { data }
    }
}

impl<T: Numeric> VectorVar<2, T> {
    /// The vector of the given entries.
    pub fn new(x: T, y: T) -> (r: Self)
        ensures
            r.wf(),
            r@ == seq![x@, y@],
    {
        let mut data: Vec<T> = Vec::new();
        data.push(x);
        data.push(y);
        assert(models(data@) =~= seq![x@, y@]);
        VectorVar { data }
    }
}

impl<T: Numeric> VectorVar<3, T> {
    /// The vector of the given entries.
    pub fn new(x: T, y: T, z: T) -> (r: Self)
        ensures
            r.wf(),
            r@ == seq![x@, y@, z@],
    {
        let mut data: Vec<T> = Vec::new();
        data.push(x);
        data.push(y);
        data.push(z);
        assert(models(data@) =~= seq![x@, y@, z@]);
        VectorVar { data }
    }
}

impl<T: Numeric> VectorVar<4, T> {
    /// The vector of the given entries.
    pub fn new(x: T, y: T, z: T, w: T) -> (r: Self)
        ensures
            r.wf(),
            r@ == seq![x@, y@, z@, w@],
    {
        let mut data: Vec<T> = Vec::new();
        data.push(x);
        data.push(y);
        data.push(z);
        data.push(w);
        assert(models(data@) =~= seq![x@, y@, z@, w@]);
        VectorVar { data }
    }
}

impl<T: Numeric> VectorVar<5, T> {
    /// The vector of the given entries.
    pub fn new(x: T, y: T, z: T, w: T, a: T) -> (r: Self)
        ensures
            r.wf(),
            r@ == seq![x@, y@, z@, w@, a@],
    {
        let mut data: Vec<T> = Vec::new();
        data.push(x);
        data.push(y);
        data.push(z);
        data.push(w);
        data.push(a);
        assert(models(data@) =~= seq![x@, y@, z@, w@, a@]);
        VectorVar { data }
    }
}

impl<T: Numeric> VectorVar<6, T> {
    /// The vector of the given entries.
    pub fn new(x: T, y: T, z: T, w: T, a: T, b: T) -> (r: Self)
        ensures
            r.wf(),
            r@ == seq![x@, y@, z@, w@, a@, b@],
    {
        let mut data: Vec<T> = Vec::new();
        data.push(x);
        data.push(y);
        data.push(z);
        data.push(w);
        data.push(a);
        data.push(b);
        assert(models(data@) =~= seq![x@, y@, z@, w@, a@, b@]);
        VectorVar { data }
    }
}

} // verus!
