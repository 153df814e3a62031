//! Dense vectors over any scalar: a vector is a `Vec`, and its model is the
//! sequence of its entries' values.

use vstd::prelude::*;
use crate::linalg::numeric::{abs, abs_model, max, max_model, models, zero, Numeric, Scalar};

verus! {

/// The sum `a[0] * b[0] + ... + a[n - 1] * b[n - 1]`, added up from the left,
/// starting at zero.
pub open spec fn dot_upto<V: Scalar>(a: Seq<V>, b: Seq<V>, n: nat) -> V
    decreases n,
{
    if n == 0 {
        zero()
    } else {
        dot_upto(a, b, (n - 1) as nat).add(a[n - 1].mul(b[n - 1]))
    }
}

/// The inner product of two sequences of one length.
pub open spec fn dot_model<V: Scalar>(a: Seq<V>, b: Seq<V>) -> V {
    dot_upto(a, b, a.len())
}

/// The squared Euclidean norm.
pub open spec fn norm_squared_model<V: Scalar>(a: Seq<V>) -> V {
    dot_model(a, a)
}

/// The greatest absolute value among the first `n` entries, zero for none.
pub open spec fn norm_inf_upto<V: Scalar>(a: Seq<V>, n: nat) -> V
    decreases n,
{
    if n == 0 {
        zero()
    } else {
        max_model(norm_inf_upto(a, (n - 1) as nat), abs_model(a[n - 1]))
    }
}

/// The maximum norm.
pub open spec fn norm_inf_model<V: Scalar>(a: Seq<V>) -> V {
    norm_inf_upto(a, a.len())
}

/// The entrywise sum.
pub open spec fn vadd_model<V: Scalar>(a: Seq<V>, b: Seq<V>) -> Seq<V> {
    Seq::new(a.len(), |i: int| a[i].add(b[i]))
}

/// The entrywise difference.
pub open spec fn vsub_model<V: Scalar>(a: Seq<V>, b: Seq<V>) -> Seq<V> {
    Seq::new(a.len(), |i: int| a[i].sub(b[i]))
}

/// Every entry multiplied by `s` from the right.
pub open spec fn vscale_model<V: Scalar>(a: Seq<V>, s: V) -> Seq<V> {
    Seq::new(a.len(), |i: int| a[i].mul(s))
}

/// Every entry negated.
pub open spec fn vneg_model<V: Scalar>(a: Seq<V>) -> Seq<V> {
    Seq::new(a.len(), |i: int| a[i].neg())
}

/// The sequence of `n` zeros.
pub open spec fn zeros_model<V: Scalar>(n: nat) -> Seq<V> {
    Seq::new(n, |i: int| zero::<V>())
}

/// The vector of `n` zeros.
pub fn vzeros<T: Numeric>(n: usize) -> (r: Vec<T>)
    ensures
        r@.len() == n,
        models(r@) == zeros_model::<T::M>(n as nat),
{
    let mut r: Vec<T> = Vec::new();
    let mut i: usize = 0;
    while i < n
        invariant
            i <= n,
            r@.len() == i,
            forall|k: int| 0 <= k < i ==> r@[k]@ == zero::<T::M>(),
        decreases n - i,
    {
        r.push(T::from_ratio(0, 1));
        i += 1;
    }
    assert(models(r@) =~= zeros_model::<T::M>(n as nat));
    r
}

/// A copy of the vector.
pub fn vcopy<T: Numeric>(a: &Vec<T>) -> (r: Vec<T>)
    ensures
        r@.len() == a@.len(),
        models(r@) == models(a@),
{
    let mut r: Vec<T> = Vec::new();
    let mut i: usize = 0;
    while i < a.len()
        invariant
            i <= a.len(),
            r@.len() == i,
            forall|k: int| 0 <= k < i ==> r@[k]@ == a@[k]@,
        decreases a.len() - i,
    {
        r.push(a[i].copy());
        i += 1;
    }
    assert(models(r@) =~= models(a@));
    r
}

/// The entrywise sum of two vectors of one length.
pub fn vadd<T: Numeric>(a: &Vec<T>, b: &Vec<T>) -> (r: Vec<T>)
    requires
        a@.len() == b@.len(),
    ensures
        r@.len() == a@.len(),
        models(r@) == vadd_model(models(a@), models(b@)),
{
    let mut r: Vec<T> = Vec::new();
    let mut i: usize = 0;
    while i < a.len()
        invariant
            i <= a.len(),
            a@.len() == b@.len(),
            r@.len() == i,
            forall|k: int| 0 <= k < i ==> r@[k]@ == a@[k]@.add(b@[k]@),
        decreases a.len() - i,
    {
        r.push(a[i].add(&b[i]));
        i += 1;
    }
    assert(models(r@) =~= vadd_model(models(a@), models(b@)));
    r
}

/// The entrywise difference of two vectors of one length.
pub fn vsub<T: Numeric>(a: &Vec<T>, b: &Vec<T>) -> (r: Vec<T>)
    requires
        a@.len() == b@.len(),
    ensures
        r@.len() == a@.len(),
        models(r@) == vsub_model(models(a@), models(b@)),
{
    let mut r: Vec<T> = Vec::new();
    let mut i: usize = 0;
    while i < a.len()
        invariant
            i <= a.len(),
            a@.len() == b@.len(),
            r@.len() == i,
            forall|k: int| 0 <= k < i ==> r@[k]@ == a@[k]@.sub(b@[k]@),
        decreases a.len() - i,
    {
        r.push(a[i].sub(&b[i]));
        i += 1;
    }
    assert(models(r@) =~= vsub_model(models(a@), models(b@)));
    r
}

/// Every entry multiplied by `s` from the right.
pub fn vscale<T: Numeric>(a: &Vec<T>, s: &T) -> (r: Vec<T>)
    ensures
        r@.len() == a@.len(),
        models(r@) == vscale_model(models(a@), s@),
{
    let mut r: Vec<T> = Vec::new();
    let mut i: usize = 0;
    while i < a.len()
        invariant
            i <= a.len(),
            r@.len() == i,
            forall|k: int| 0 <= k < i ==> r@[k]@ == a@[k]@.mul(s@),
        decreases a.len() - i,
    {
        r.push(a[i].mul(s));
        i += 1;
    }
    assert(models(r@) =~= vscale_model(models(a@), s@));
    r
}

/// Every entry negated.
pub fn vneg<T: Numeric>(a: &Vec<T>) -> (r: Vec<T>)
    ensures
        r@.len() == a@.len(),
        models(r@) == vneg_model(models(a@)),
{
    let mut r: Vec<T> = Vec::new();
    let mut i: usize = 0;
    while i < a.len()
        invariant
            i <= a.len(),
            r@.len() == i,
            forall|k: int| 0 <= k < i ==> r@[k]@ == a@[k]@.neg(),
        decreases a.len() - i,
    {
        r.push(a[i].neg());
        i += 1;
    }
    assert(models(r@) =~= vneg_model(models(a@)));
    r
}

/// The inner product of two vectors of one length.
pub fn dot<T: Numeric>(a: &Vec<T>, b: &Vec<T>) -> (r: T)
    requires
        a@.len() == b@.len(),
    ensures
        r@ == dot_model(models(a@), models(b@)),
{
    let mut acc = T::from_ratio(0, 1);
    let mut i: usize = 0;
    while i < a.len()
        invariant
            i <= a.len(),
            a@.len() == b@.len(),
            acc@ == dot_upto(models(a@), models(b@), i as nat),
        decreases a.len() - i,
    {
        acc = acc.add(&a[i].mul(&b[i]));
        i += 1;
    }
    acc
}

/// The squared Euclidean norm.
pub fn norm_squared<T: Numeric>(a: &Vec<T>) -> (r: T)
    ensures
        r@ == norm_squared_model(models(a@)),
{
    dot(a, a)
}

/// The maximum norm.
pub fn norm_inf<T: Numeric>(a: &Vec<T>) -> (r: T)
    ensures
        r@ == norm_inf_model(models(a@)),
{
    let mut acc = T::from_ratio(0, 1);
    let mut i: usize = 0;
    while i < a.len()
        invariant
            i <= a.len(),
            acc@ == norm_inf_upto(models(a@), i as nat),
        decreases a.len() - i,
    {
        let m = abs(&a[i]);
        acc = max(&acc, &m);
        i += 1;
    }
    acc
}

/// The sequence of the 1 given values.
pub open spec fn seq1<V>(a: V) -> Seq<V> {
    seq![a]
}

/// The vector of the 1 given entries.
pub fn vec1<T: Numeric>(a: &T) -> (r: Vec<T>)
    ensures
        models(r@) == seq1(a@),
        r@.len() == 1,
{
    let mut r: Vec<T> = Vec::new();
    r.push(a.copy());
    assert(models(r@) =~= seq1(a@));
    r
}

/// The sequence of the 2 given values.
pub open spec fn seq2<V>(a: V, b: V) -> Seq<V> {
    seq![a, b]
}

/// The vector of the 2 given entries.
pub fn vec2<T: Numeric>(a: &T, b: &T) -> (r: Vec<T>)
    ensures
        models(r@) == seq2(a@, b@),
        r@.len() == 2,
{
    let mut r: Vec<T> = Vec::new();
    r.push(a.copy());
    r.push(b.copy());
    assert(models(r@) =~= seq2(a@, b@));
    r
}

/// The sequence of the 3 given values.
pub open spec fn seq3<V>(a: V, b: V, c: V) -> Seq<V> {
    seq![a, b, c]
}

/// The vector of the 3 given entries.
pub fn vec3<T: Numeric>(a: &T, b: &T, c: &T) -> (r: Vec<T>)
    ensures
        models(r@) == seq3(a@, b@, c@),
        r@.len() == 3,
{
    let mut r: Vec<T> = Vec::new();
    r.push(a.copy());
    r.push(b.copy());
    r.push(c.copy());
    assert(models(r@) =~= seq3(a@, b@, c@));
    r
}

/// The sequence of the 4 given values.
pub open spec fn seq4<V>(a: V, b: V, c: V, d: V) -> Seq<V> {
    seq![a, b, c, d]
}

/// The vector of the 4 given entries.
pub fn vec4<T: Numeric>(a: &T, b: &T, c: &T, d: &T) -> (r: Vec<T>)
    ensures
        models(r@) == seq4(a@, b@, c@, d@),
        r@.len() == 4,
{
    let mut r: Vec<T> = Vec::new();
    r.push(a.copy());
    r.push(b.copy());
    r.push(c.copy());
    r.push(d.copy());
    assert(models(r@) =~= seq4(a@, b@, c@, d@));
    r
}

/// The sequence of the 6 given values.
pub open spec fn seq6<V>(a: V, b: V, c: V, d: V, e: V, f: V) -> Seq<V> {
    seq![a, b, c, d, e, f]
}

/// The vector of the 6 given entries.
pub fn vec6<T: Numeric>(a: &T, b: &T, c: &T, d: &T, e: &T, f: &T) -> (r: Vec<T>)
    ensures
        models(r@) == seq6(a@, b@, c@, d@, e@, f@),
        r@.len() == 6,
{
    let mut r: Vec<T> = Vec::new();
    r.push(a.copy());
    r.push(b.copy());
    r.push(c.copy());
    r.push(d.copy());
    r.push(e.copy());
    r.push(f.copy());
    assert(models(r@) =~= seq6(a@, b@, c@, d@, e@, f@));
    r
}

/// The entries of `v` from place `from` up to, not including, place `to`.
pub fn slice_copy<T: Numeric>(v: &Vec<T>, from: usize, to: usize) -> (r: Vec<T>)
    requires
        from <= to <= v@.len(),
    ensures
        r@.len() == to - from,
        models(r@) == models(v@).subrange(from as int, to as int),
{
    let mut r: Vec<T> = Vec::new();
    let mut i: usize = from;
    while i < to
        invariant
            from <= i <= to <= v@.len(),
            r@.len() == i - from,
            forall|k: int| 0 <= k < i - from ==> (#[trigger] r@[k])@ == v@[from + k]@,
        decreases to - i,
    {
        r.push(v[i].copy());
        i += 1;
    }
    assert(models(r@) =~= models(v@).subrange(from as int, to as int));
    r
}

} // verus!
