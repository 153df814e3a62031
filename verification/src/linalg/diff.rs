//! Differentiation of functions of variables: forward mode through dual
//! numbers, and central differences as a reference.

use vstd::prelude::*;
use crate::linalg::dense::{vsub, vsub_model};
use crate::linalg::dual::{Dual, DualModel};
use crate::linalg::matrix::{Grid, Matrix};
use crate::linalg::numeric::{models, Numeric, Scalar};
use crate::residuals::residual::var_models;
use crate::variables::var::{lemma_oplus_same_kind, Var, VarModel};

verus! {

/// The first tangent direction of variable `i`: the dimensions of the
/// variables before it, added up.
pub open spec fn var_offset<V: Scalar>(vars: Seq<VarModel<V>>, i: nat) -> nat
    decreases i,
{
    if i == 0 {
        0
    } else {
        var_offset(vars, (i - 1) as nat) + vars[i - 1].dim()
    }
}

/// The dimensions of the variables, added up.
pub open spec fn var_total<V: Scalar>(vars: Seq<VarModel<V>>) -> nat {
    var_offset(vars, vars.len())
}

/// Every variable with its own tangent directions retracted onto it: the
/// directions of variable `i` start at the dimensions of those before it.
pub open spec fn dual_vars<V: Scalar>(vars: Seq<VarModel<V>>) -> Seq<VarModel<DualModel<V>>> {
    Seq::new(vars.len(), |i: int| vars[i].dual(var_offset(vars, i as nat) as int, var_total(vars)))
}

/// The values of a sequence of dual numbers.
pub open spec fn values_of<V: Scalar>(out: Seq<DualModel<V>>) -> Seq<V> {
    Seq::new(out.len(), |i: int| out[i].re)
}

/// The derivatives of a sequence of dual numbers in `n` directions, one row
/// for each number.
pub open spec fn jacobian_of<V: Scalar>(out: Seq<DualModel<V>>, n: nat) -> Grid<V> {
    Grid::build(out.len(), n, |i: int, j: int| out[i].eps_at(j))
}

/// The variable under dual numbers is of the lifted target's kind exactly
/// when the variable is of the target's kind.
pub proof fn lemma_dual_same_kind<V: Scalar>(x: VarModel<V>, target: VarModel<V>, idx: int, n: nat)
    ensures
        x.dual(idx, n).same_kind(target.lift()) == x.same_kind(target),
{
}

/// The first tangent directions do not fall as the variables go on.
pub proof fn lemma_var_offset_monotone<V: Scalar>(vars: Seq<VarModel<V>>, i: nat, j: nat)
    requires
        i <= j,
    ensures
        var_offset(vars, i) <= var_offset(vars, j),
    decreases j,
{
    if i < j {
        lemma_var_offset_monotone(vars, i, (j - 1) as nat);
    }
}

/// The variables with their tangent directions retracted onto them.
pub fn dual_vars_of<T: Numeric>(vars: &Vec<Var<T>>) -> (r: Vec<Var<Dual<T>>>)
    requires
        var_total(var_models(vars@)) <= usize::MAX,
    ensures
        r@.len() == vars@.len(),
        var_models(r@) == dual_vars(var_models(vars@)),
{
    let ghost ms = var_models(vars@);
    let mut total: usize = 0;
    let mut i: usize = 0;
    while i < vars.len()
        invariant
            ms == var_models(vars@),
            var_total(ms) <= usize::MAX,
            i <= vars@.len(),
            total == var_offset(ms, i as nat),
        decreases vars@.len() - i,
    {
        proof {
            lemma_var_offset_monotone(ms, (i + 1) as nat, ms.len());
        }
        total = total + vars[i].dim();
        i += 1;
    }
    let mut out: Vec<Var<Dual<T>>> = Vec::new();
    let mut off: usize = 0;
    let mut i: usize = 0;
    while i < vars.len()
        invariant
            ms == var_models(vars@),
            total == var_total(ms),
            i <= vars@.len(),
            off == var_offset(ms, i as nat),
            out@.len() == i,
            forall|j: int| 0 <= j < i ==> (#[trigger] out@[j])@ == dual_vars(ms)[j],
        decreases vars@.len() - i,
    {
        proof {
            lemma_var_offset_monotone(ms, (i + 1) as nat, ms.len());
        }
        let d: usize = vars[i].dim();
        out.push(vars[i].dual(off, total));
        off = off + d;
        i += 1;
    }
    assert(var_models(out@) =~= dual_vars(ms));
    out
}

/// The values of the dual numbers.
pub fn values_of_duals<T: Numeric>(out: &Vec<Dual<T>>) -> (r: Vec<T>)
    ensures
        r@.len() == out@.len(),
        models(r@) == values_of(models(out@)),
{
    let mut value: Vec<T> = Vec::new();
    let mut i: usize = 0;
    while i < out.len()
        invariant
            i <= out@.len(),
            value@.len() == i,
            forall|j: int| 0 <= j < i ==> (#[trigger] value@[j])@ == out@[j]@.re,
        decreases out@.len() - i,
    {
        value.push(out[i].re());
        i += 1;
    }
    assert(models(value@) =~= values_of(models(out@)));
    value
}

/// The derivatives of the dual numbers in `n` directions, one row for each
/// number.
pub fn jacobian_of_duals<T: Numeric>(out: &Vec<Dual<T>>, n: usize) -> (r: Matrix<T>)
    ensures
        r.wf(),
        r@ == jacobian_of(models(out@), n as nat),
{
    let mut rows: Vec<Vec<T>> = Vec::new();
    let mut i: usize = 0;
    while i < out.len()
        invariant
            i <= out@.len(),
            rows@.len() == i,
            forall|k: int| 0 <= k < i ==> (#[trigger] rows@[k])@.len() == n,
            forall|k: int, l: int|
                0 <= k < i && 0 <= l < n ==> (#[trigger] rows@[k]@[l])@ == out@[k]@.eps_at(l),
        decreases out@.len() - i,
    {
        let mut row: Vec<T> = Vec::new();
        let mut j: usize = 0;
        while j < n
            invariant
                i < out@.len(),
                j <= n,
                row@.len() == j,
                forall|l: int| 0 <= l < j ==> (#[trigger] row@[l])@ == out@[i as int]@.eps_at(l),
            decreases n - j,
        {
            row.push(out[i].eps(j));
            j += 1;
        }
        rows.push(row);
        i += 1;
    }
    let r = Matrix::from_rows(rows, n);
    assert(r@.rows =~~= jacobian_of(models(out@), n as nat).rows);
    r
}


/// A value and its derivative.
pub struct DiffResult<T> {
    pub value: Vec<T>,
    pub diff: Matrix<T>,
}

/// Both sequences hold variables of the same kinds, place by place.
pub open spec fn same_kinds<V: Scalar>(a: Seq<VarModel<V>>, b: Seq<VarModel<V>>) -> bool {
    &&& a.len() == b.len()
    &&& forall|i: int| 0 <= i < a.len() ==> (#[trigger] a[i]).same_kind(b[i])
}

/// Every variable with its part of `delta` retracted onto it: variable `i`
/// takes the entries of `delta` from its first tangent direction on.
pub open spec fn perturbed<V: Scalar>(vars: Seq<VarModel<V>>, delta: Seq<V>) -> Seq<VarModel<V>> {
    Seq::new(
        vars.len(),
        |i: int|
            vars[i].oplus(
                delta.subrange(
                    var_offset(vars, i as nat) as int,
                    (var_offset(vars, i as nat) + vars[i].dim()) as int,
                ),
            ),
    )
}

/// The tangent vector of length `n` that is `h` in direction `j` and zero in
/// the others.
pub open spec fn nudge<V: Scalar>(n: nat, j: int, h: V) -> Seq<V> {
    Seq::new(
        n,
        |i: int|
            if i == j {
                h
            } else {
                V::ratio(0, 1)
            },
    )
}

/// Every entry of `v` divided by `2 h`.
pub open spec fn over_two<V: Scalar>(v: Seq<V>, h: V) -> Seq<V> {
    Seq::new(v.len(), |i: int| v[i].div(V::ratio(2, 1).mul(h)))
}

/// The central difference quotient `(plus - minus) / (2 h)`, entry by
/// entry.
pub open spec fn quotient<V: Scalar>(plus: Seq<V>, minus: Seq<V>, h: V) -> Seq<V> {
    over_two(vsub_model(plus, minus), h)
}

/// Column `j` of a derivative by central differences is `col`: `f` was
/// evaluated at the variables with `h` and with `-h` retracted onto them in
/// tangent direction `j`, and `col` is the difference quotient of the two
/// results.
pub open spec fn column_ok<T: Numeric, F: Fn(&Vec<Var<T>>) -> Vec<T>>(
    f: F,
    vars: Seq<VarModel<T::M>>,
    j: int,
    h: T::M,
    col: Seq<T::M>,
) -> bool {
    exists|dp: Vec<Var<T>>, plus: Vec<T>, dm: Vec<Var<T>>, minus: Vec<T>|
        var_models(dp@) == perturbed(vars, nudge(var_total(vars), j, h)) && call_ensures(
            f,
            (&dp,),
            plus,
        ) && var_models(dm@) == perturbed(vars, nudge(var_total(vars), j, h.neg())) && call_ensures(
            f,
            (&dm,),
            minus,
        ) && col == quotient(models(plus@), models(minus@), h)
}

/// Column `j` of the derivative by central differences of a function whose
/// result is a variable: the difference of the two results is taken in the
/// tangent space, as `plus (-) minus`.
pub open spec fn variable_column_ok<T: Numeric, F: Fn(&Vec<Var<T>>) -> Var<T>>(
    f: F,
    vars: Seq<VarModel<T::M>>,
    j: int,
    h: T::M,
    col: Seq<T::M>,
) -> bool {
    exists|dp: Vec<Var<T>>, plus: Var<T>, dm: Vec<Var<T>>, minus: Var<T>|
        var_models(dp@) == perturbed(vars, nudge(var_total(vars), j, h)) && call_ensures(
            f,
            (&dp,),
            plus,
        ) && var_models(dm@) == perturbed(vars, nudge(var_total(vars), j, h.neg())) && call_ensures(
            f,
            (&dm,),
            minus,
        ) && col == over_two(plus@.ominus(minus@), h)
}

/// The value of a function whose result is a variable, and its derivative.
pub struct VarDiffResult<T> {
    pub value: Var<T>,
    pub diff: Matrix<T>,
}

/// The power `10^p`.
pub open spec fn pow10(p: nat) -> int
    decreases p,
{
    if p == 0 {
        1
    } else {
        10 * pow10((p - 1) as nat)
    }
}

/// The powers of ten up to the eighteenth fit into 64 bits.
pub proof fn lemma_pow10_bound(p: nat)
    requires
        p <= 18,
    ensures
        1 <= pow10(p) <= 1000000000000000000,
    decreases 18 - p,
{
    if p == 18 {
        reveal_with_fuel(pow10, 19);
    } else {
        lemma_pow10_bound(p + 1);
    }
}

/// The variables with `delta` retracted onto them.
pub fn perturb<T: Numeric>(vars: &Vec<Var<T>>, delta: &Vec<T>) -> (r: Vec<Var<T>>)
    requires
        delta@.len() == var_total(var_models(vars@)),
    ensures
        var_models(r@) == perturbed(var_models(vars@), models(delta@)),
        same_kinds(var_models(r@), var_models(vars@)),
{
    let ghost ms = var_models(vars@);
    let width: usize = delta.len();
    let mut out: Vec<Var<T>> = Vec::new();
    let mut off: usize = 0;
    let mut i: usize = 0;
    while i < vars.len()
        invariant
            ms == var_models(vars@),
            width == delta@.len(),
            width == var_total(ms),
            i <= vars@.len(),
            off == var_offset(ms, i as nat),
            out@.len() == i,
            forall|j: int|
                0 <= j < i ==> (#[trigger] out@[j])@ == perturbed(ms, models(delta@))[j]
                    && out@[j]@.same_kind(ms[j]),
        decreases vars@.len() - i,
    {
        proof {
            lemma_var_offset_monotone(ms, (i + 1) as nat, ms.len());
        }
        let d: usize = vars[i].dim();
        let part = crate::linalg::dense::slice_copy(delta, off, off + d);
        proof {
            lemma_oplus_same_kind(ms[i as int], models(part@));
        }
        out.push(vars[i].oplus(&part));
        off = off + d;
        i += 1;
    }
    assert(var_models(out@) =~= perturbed(ms, models(delta@)));
    out
}

/// The dimensions of the variables, added up, where the sum can be
/// counted.
pub fn checked_total_dim<T: Numeric>(vars: &Vec<Var<T>>) -> (r: Option<usize>)
    ensures
        r is Some <==> var_total(var_models(vars@)) <= usize::MAX,
        r matches Some(n) ==> n == var_total(var_models(vars@)),
{
    let ghost ms = var_models(vars@);
    let mut total: usize = 0;
    let mut i: usize = 0;
    while i < vars.len()
        invariant
            ms == var_models(vars@),
            i <= vars@.len(),
            total == var_offset(ms, i as nat),
        decreases vars@.len() - i,
    {
        let d: usize = vars[i].dim();
        if d > usize::MAX - total {
            proof {
                lemma_var_offset_monotone(ms, (i + 1) as nat, ms.len());
            }
            return None;
        }
        total = total + d;
        i += 1;
    }
    Some(total)
}

/// The dimensions of the variables, added up.
pub fn total_dim_of<T: Numeric>(vars: &Vec<Var<T>>) -> (r: usize)
    requires
        var_total(var_models(vars@)) <= usize::MAX,
    ensures
        r == var_total(var_models(vars@)),
{
    let ghost ms = var_models(vars@);
    let mut total: usize = 0;
    let mut i: usize = 0;
    while i < vars.len()
        invariant
            ms == var_models(vars@),
            var_total(ms) <= usize::MAX,
            i <= vars@.len(),
            total == var_offset(ms, i as nat),
        decreases vars@.len() - i,
    {
        proof {
            lemma_var_offset_monotone(ms, (i + 1) as nat, ms.len());
        }
        total = total + vars[i].dim();
        i += 1;
    }
    total
}

/// The tangent vector of length `n` that is `h` in direction `j` and zero in
/// the others.
pub fn nudge_vec<T: Numeric>(n: usize, j: usize, h: &T) -> (r: Vec<T>)
    ensures
        r@.len() == n,
        models(r@) == nudge(n as nat, j as int, h@),
{
    let mut out: Vec<T> = Vec::new();
    let mut i: usize = 0;
    while i < n
        invariant
            i <= n,
            out@.len() == i,
            forall|k: int|
                0 <= k < i ==> (#[trigger] out@[k])@ == (if k == j {
                    h@
                } else {
                    T::M::ratio(0, 1)
                }),
        decreases n - i,
    {
        if i == j {
            out.push(h.copy());
        } else {
            out.push(T::from_ratio(0, 1));
        }
        i += 1;
    }
    assert(models(out@) =~= nudge(n as nat, j as int, h@));
    out
}

/// Every entry of `v` divided by `2 h`.
pub fn over_two_vec<T: Numeric>(v: &Vec<T>, h: &T) -> (r: Vec<T>)
    ensures
        r@.len() == v@.len(),
        models(r@) == over_two(models(v@), h@),
{
    let two_h = T::from_ratio(2, 1).mul(h);
    let mut out: Vec<T> = Vec::new();
    let mut i: usize = 0;
    while i < v.len()
        invariant
            two_h@ == T::M::ratio(2, 1).mul(h@),
            i <= v@.len(),
            out@.len() == i,
            forall|k: int|
                0 <= k < i ==> (#[trigger] out@[k])@ == v@[k]@.div(T::M::ratio(2, 1).mul(h@)),
        decreases v@.len() - i,
    {
        out.push(v[i].div(&two_h));
        i += 1;
    }
    assert(models(out@) =~= over_two(models(v@), h@));
    out
}

/// Differentiation in forward mode: the function is evaluated once, on
/// dual numbers.
pub struct ForwardProp {}

impl ForwardProp {
    /// The value and the derivative of `f` at `x`: `f` is evaluated at the
    /// dual number of value `x` whose one derivative is one, and the result's
    /// value and derivative are returned.
    pub fn derivative<T: Numeric, F: Fn(Dual<T>) -> Dual<T>>(f: F, x: &T) -> (r: (T, T))
        requires
            forall|d: Dual<T>| call_requires(f, (d,)),
        ensures
            exists|d: Dual<T>, out: Dual<T>|
                d@ == DualModel::variable(x@, 0, 1) && call_ensures(f, (d,), out) && r.0@
                    == out@.re && r.1@ == out@.eps_at(0),
    {
        let d = Dual::variable(x.copy(), 0, 1);
        let ghost seed = d;
        let out = f(d);
        let r = (out.re(), out.eps(0));
        assert(seed@ == DualModel::variable(x@, 0, 1) && call_ensures(f, (seed,), out) && r.0@
            == out@.re && r.1@ == out@.eps_at(0));
        r
    }

    /// The value and the Jacobian of `f` at the variables: `f` is evaluated
    /// at the variables with their tangent directions retracted onto them,
    /// the value is the values of the result, and row `i` of the Jacobian
    /// holds the derivatives of entry `i` of the result, with the
    /// directions of the variables side by side in their order.
    pub fn jacobian<T: Numeric, F: Fn(&Vec<Var<Dual<T>>>) -> Vec<Dual<T>>>(
        f: F,
        vars: &Vec<Var<T>>,
    ) -> (r: DiffResult<T>)
        requires
            var_total(var_models(vars@)) <= usize::MAX,
            forall|d: Vec<Var<Dual<T>>>|
                var_models(d@) == dual_vars(var_models(vars@)) ==> call_requires(f, (&d,)),
        ensures
            r.diff.wf(),
            exists|d: Vec<Var<Dual<T>>>, out: Vec<Dual<T>>|
                var_models(d@) == dual_vars(var_models(vars@)) && call_ensures(f, (&d,), out)
                    && models(r.value@) == values_of(models(out@)) && r.diff@ == jacobian_of(
                    models(out@),
                    var_total(var_models(vars@)),
                ),
    {
        let width: usize = total_dim_of(vars);
        let duals = dual_vars_of(vars);
        let out = f(&duals);
        let r = DiffResult { value: values_of_duals(&out), diff: jacobian_of_duals(&out, width) };
        assert(var_models(duals@) == dual_vars(var_models(vars@)) && call_ensures(
            f,
            (&duals,),
            out,
        ) && models(r.value@) == values_of(models(out@)) && r.diff@ == jacobian_of(
            models(out@),
            var_total(var_models(vars@)),
        ));
        r
    }
}

/// Differentiation by central differences with the step `10^-PWR`: the
/// function is evaluated twice for each tangent direction.
pub struct NumericalDiff<const PWR: u32> {}

/// The step `10^-pwr`.
pub open spec fn step_model<V: Scalar>(pwr: nat) -> V {
    V::ratio(1, pow10(pwr) as i64)
}

impl<const PWR: u32> NumericalDiff<PWR> {
    /// The step `10^-PWR`.
    pub fn step<T: Numeric>() -> (h: T)
        requires
            PWR <= 18,
        ensures
            h@ == step_model::<T::M>(PWR as nat),
    {
        let mut p: i64 = 1;
        let mut i: u32 = 0;
        while i < PWR
            invariant
                PWR <= 18,
                i <= PWR,
                p == pow10(i as nat),
            decreases PWR - i,
        {
            proof {
                lemma_pow10_bound((i + 1) as nat);
            }
            p = p * 10;
            i += 1;
        }
        proof {
            lemma_pow10_bound(PWR as nat);
        }
        T::from_ratio(1, p)
    }

    /// The value of `f` at `x` and its central difference quotient
    /// `(f(x + h) - f(x - h)) / (2 h)`.
    pub fn derivative<T: Numeric, F: Fn(T) -> T>(f: F, x: &T) -> (r: (T, T))
        requires
            PWR <= 18,
            forall|a: T| call_requires(f, (a,)),
        ensures
            exists|a: T, value: T, up: T, plus: T, down: T, minus: T|
                a@ == x@ && call_ensures(f, (a,), value) && r.0@ == value@ && up@ == x@.add(
                    step_model::<T::M>(PWR as nat),
                ) && call_ensures(f, (up,), plus) && down@ == x@.sub(
                    step_model::<T::M>(PWR as nat),
                ) && call_ensures(f, (down,), minus) && r.1@ == plus@.sub(minus@).div(
                    T::M::ratio(2, 1).mul(step_model::<T::M>(PWR as nat)),
                ),
    {
        let h: T = Self::step();
        let a = x.copy();
        let up = x.add(&h);
        let down = x.sub(&h);
        let ghost ga = a;
        let ghost gup = up;
        let ghost gdown = down;
        let value = f(a);
        let plus = f(up);
        let minus = f(down);
        let r = (value, plus.sub(&minus).div(&T::from_ratio(2, 1).mul(&h)));
        assert(ga@ == x@ && call_ensures(f, (ga,), r.0) && r.0@ == r.0@ && gup@ == x@.add(
            step_model::<T::M>(PWR as nat),
        ) && call_ensures(f, (gup,), plus) && gdown@ == x@.sub(step_model::<T::M>(PWR as nat))
            && call_ensures(f, (gdown,), minus) && r.1@ == plus@.sub(minus@).div(
            T::M::ratio(2, 1).mul(step_model::<T::M>(PWR as nat)),
        ));
        r
    }

    /// The value of `f` at the variables and its Jacobian by central
    /// differences: column `j` is the difference quotient in tangent
    /// direction `j`, with the directions of the variables side by side in
    /// their order.
    pub fn jacobian<T: Numeric, F: Fn(&Vec<Var<T>>) -> Vec<T>>(f: F, vars: &Vec<Var<T>>) -> (r:
        DiffResult<T>)
        requires
            PWR <= 18,
            var_total(var_models(vars@)) <= usize::MAX,
            forall|d: Vec<Var<T>>|
                same_kinds(var_models(d@), var_models(vars@)) ==> call_requires(f, (&d,)),
            forall|d1: Vec<Var<T>>, o1: Vec<T>, d2: Vec<Var<T>>, o2: Vec<T>|
                call_ensures(f, (&d1,), o1) && call_ensures(f, (&d2,), o2) ==> o1@.len()
                    == o2@.len(),
        ensures
            r.diff.wf(),
            r.diff@.ncols == var_total(var_models(vars@)),
            r.diff@.nrows() == r.value@.len(),
            call_ensures(f, (vars,), r.value),
            forall|j: int|
                0 <= j < var_total(var_models(vars@)) ==> column_ok(
                    f,
                    var_models(vars@),
                    j,
                    step_model::<T::M>(PWR as nat),
                    #[trigger] r.diff@.col(j),
                ),
    {
        let ghost ms = var_models(vars@);
        let h: T = Self::step();
        let down = h.neg();
        let width: usize = total_dim_of(vars);
        assert(same_kinds(ms, ms));
        let value = f(vars);
        let k: usize = value.len();
        let mut columns: Vec<Vec<T>> = Vec::new();
        let mut j: usize = 0;
        while j < width
            invariant
                ms == var_models(vars@),
                width == var_total(ms),
                h@ == step_model::<T::M>(PWR as nat),
                down@ == h@.neg(),
                k == value@.len(),
                call_ensures(f, (vars,), value),
                forall|d: Vec<Var<T>>| same_kinds(var_models(d@), ms) ==> call_requires(f, (&d,)),
                forall|d1: Vec<Var<T>>, o1: Vec<T>, d2: Vec<Var<T>>, o2: Vec<T>|
                    call_ensures(f, (&d1,), o1) && call_ensures(f, (&d2,), o2) ==> o1@.len()
                        == o2@.len(),
                j <= width,
                columns@.len() == j,
                forall|c: int| 0 <= c < j ==> (#[trigger] columns@[c])@.len() == k,
                forall|c: int|
                    0 <= c < j ==> column_ok(f, ms, c, h@, models((#[trigger] columns@[c])@)),
            decreases width - j,
        {
            let dp = perturb(vars, &nudge_vec(width, j, &h));
            let plus = f(&dp);
            let dm = perturb(vars, &nudge_vec(width, j, &down));
            let minus = f(&dm);
            let col = over_two_vec(&vsub(&plus, &minus), &h);
            assert(column_ok(f, ms, j as int, h@, models(col@))) by {
                assert(var_models(dp@) == perturbed(ms, nudge(var_total(ms), j as int, h@))
                    && call_ensures(f, (&dp,), plus) && var_models(dm@) == perturbed(
                    ms,
                    nudge(var_total(ms), j as int, h@.neg()),
                ) && call_ensures(f, (&dm,), minus) && models(col@) == quotient(
                    models(plus@),
                    models(minus@),
                    h@,
                ));
            }
            columns.push(col);
            j += 1;
        }
        let by_columns = Matrix::from_rows(columns, k);
        let diff = by_columns.transpose();
        assert forall|c: int| 0 <= c < width implies column_ok(
            f,
            ms,
            c,
            h@,
            #[trigger] diff@.col(c),
        ) by {
            assert(diff@.col(c) =~= models(columns@[c]@));
        }
        DiffResult { value, diff }
    }

    /// The value of `f` at the variables, which is a variable, and its
    /// Jacobian by central differences: column `j` is the difference
    /// quotient in tangent direction `j`, with the difference of the two
    /// results taken in the tangent space.
    pub fn jacobian_variable<T: Numeric, F: Fn(&Vec<Var<T>>) -> Var<T>>(
        f: F,
        vars: &Vec<Var<T>>,
    ) -> (r: VarDiffResult<T>)
        requires
            PWR <= 18,
            var_total(var_models(vars@)) <= usize::MAX,
            forall|d: Vec<Var<T>>|
                same_kinds(var_models(d@), var_models(vars@)) ==> call_requires(f, (&d,)),
            forall|d1: Vec<Var<T>>, o1: Var<T>, d2: Vec<Var<T>>, o2: Var<T>|
                call_ensures(f, (&d1,), o1) && call_ensures(f, (&d2,), o2) ==> o1@.same_kind(o2@),
        ensures
            r.diff.wf(),
            r.diff@.ncols == var_total(var_models(vars@)),
            r.diff@.nrows() == r.value@.dim(),
            call_ensures(f, (vars,), r.value),
            forall|j: int|
                0 <= j < var_total(var_models(vars@)) ==> variable_column_ok(
                    f,
                    var_models(vars@),
                    j,
                    step_model::<T::M>(PWR as nat),
                    #[trigger] r.diff@.col(j),
                ),
    {
        let ghost ms = var_models(vars@);
        let h: T = Self::step();
        let down = h.neg();
        let width: usize = total_dim_of(vars);
        assert(same_kinds(ms, ms));
        let value = f(vars);
        let k: usize = value.dim();
        let mut columns: Vec<Vec<T>> = Vec::new();
        let mut j: usize = 0;
        while j < width
            invariant
                ms == var_models(vars@),
                width == var_total(ms),
                h@ == step_model::<T::M>(PWR as nat),
                down@ == h@.neg(),
                k == value@.dim(),
                call_ensures(f, (vars,), value),
                forall|d: Vec<Var<T>>| same_kinds(var_models(d@), ms) ==> call_requires(f, (&d,)),
                forall|d1: Vec<Var<T>>, o1: Var<T>, d2: Vec<Var<T>>, o2: Var<T>|
                    call_ensures(f, (&d1,), o1) && call_ensures(f, (&d2,), o2) ==> o1@.same_kind(
                        o2@,
                    ),
                j <= width,
                columns@.len() == j,
                forall|c: int| 0 <= c < j ==> (#[trigger] columns@[c])@.len() == k,
                forall|c: int|
                    0 <= c < j ==> variable_column_ok(
                        f,
                        ms,
                        c,
                        h@,
                        models((#[trigger] columns@[c])@),
                    ),
            decreases width - j,
        {
            let dp = perturb(vars, &nudge_vec(width, j, &h));
            let plus = f(&dp);
            let dm = perturb(vars, &nudge_vec(width, j, &down));
            let minus = f(&dm);
            assert(plus@.same_kind(minus@));
            assert(plus@.same_kind(value@));
            let col = over_two_vec(&plus.ominus(&minus), &h);
            assert(variable_column_ok(f, ms, j as int, h@, models(col@))) by {
                assert(var_models(dp@) == perturbed(ms, nudge(var_total(ms), j as int, h@))
                    && call_ensures(f, (&dp,), plus) && var_models(dm@) == perturbed(
                    ms,
                    nudge(var_total(ms), j as int, h@.neg()),
                ) && call_ensures(f, (&dm,), minus) && models(col@) == over_two(
                    plus@.ominus(minus@),
                    h@,
                ));
            }
            columns.push(col);
            j += 1;
        }
        let by_columns = Matrix::from_rows(columns, k);
        let diff = by_columns.transpose();
        assert forall|c: int| 0 <= c < width implies variable_column_ok(
            f,
            ms,
            c,
            h@,
            #[trigger] diff@.col(c),
        ) by {
            assert(diff@.col(c) =~= models(columns@[c]@));
        }
        VarDiffResult { value, diff }
    }
}

} // verus!
