//! The Cholesky factorisation of a symmetric positive definite matrix, and
//! what is solved with it.

use vstd::prelude::*;
use crate::linalg::dense::dot_upto;
use crate::linalg::matrix::{Grid, Matrix};
use crate::linalg::numeric::{models, one, zero, Numeric, Scalar};

verus! {

/// The sum of `l[i][m] * l[j][m]` over `m < k`, added up from the left, where
/// `l` is the Cholesky factor of `a`.
pub open spec fn chol_sum<V: Scalar>(a: Grid<V>, i: nat, j: nat, k: nat) -> V
    decreases i, j, k,
{
    if 0 < k <= j <= i {
        chol_sum(a, i, j, (k - 1) as nat).add(
            chol_at(a, i, (k - 1) as nat).mul(chol_at(a, j, (k - 1) as nat)),
        )
    } else {
        zero()
    }
}

/// What is left of the diagonal entry `a[i][i]` when the squares of the
/// factor's entries to its left are taken off.
pub open spec fn chol_pivot<V: Scalar>(a: Grid<V>, i: nat) -> V
    decreases i, i, i + 1,
{
    a.rows[i as int][i as int].sub(chol_sum(a, i, i, i))
}

/// The entry `(i, j)` of the lower triangular Cholesky factor of `a`: the
/// root of the pivot on the diagonal, zero above it, and below it what is
/// left of `a[i][j]`, divided by the diagonal entry of column `j`.
pub open spec fn chol_at<V: Scalar>(a: Grid<V>, i: nat, j: nat) -> V
    decreases i, j, j + 1,
{
    if j > i {
        zero()
    } else if j == i {
        a.rows[i as int][i as int].sub(chol_sum(a, i, i, i)).sqrt()
    } else {
        a.rows[i as int][j as int].sub(chol_sum(a, i, j, j)).div(chol_at(a, j, j))
    }
}

/// Every pivot of `a` is greater than zero: the factorisation exists.
pub open spec fn chol_ok<V: Scalar>(a: Grid<V>) -> bool {
    forall|i: nat| i < a.nrows() ==> zero::<V>().lt(#[trigger] chol_pivot(a, i))
}

/// The lower triangular Cholesky factor `L` of `a`, with `L L^T = a`.
pub open spec fn chol_grid<V: Scalar>(a: Grid<V>) -> Grid<V> {
    Grid::build(a.nrows(), a.nrows(), |i: int, j: int| chol_at(a, i as nat, j as nat))
}

/// The Cholesky factor is lower triangular: above its diagonal it is zero.
pub proof fn lemma_chol_lower_triangular<V: Scalar>(a: Grid<V>, i: int, j: int)
    requires
        0 <= i < j < a.nrows(),
    ensures
        chol_grid(a).rows[i][j] == zero::<V>(),
{
}

/// The Cholesky factor of a square matrix, of which only the lower triangle
/// is read; `None` where a pivot is not greater than zero.
pub fn cholesky<T: Numeric>(a: &Matrix<T>) -> (r: Option<Matrix<T>>)
    requires
        a.wf(),
        a@.is_square(),
    ensures
        r.is_some() <==> chol_ok(a@),
        r matches Some(l) ==> l.wf() && l@ == chol_grid(a@),
{
    let n: usize = a.nrows();
    let nought = T::from_ratio(0, 1);
    let mut l: Matrix<T> = Matrix::zeros(n, n);
    proof {
        a.lemma_view_wf();
        l.lemma_view_wf();
    }
    let mut i: usize = 0;
    while i < n
        invariant
            a.wf(),
            a@.wf(),
            a@.is_square(),
            n == a@.nrows(),
            nought@ == zero::<T::M>(),
            i <= n,
            l.wf(),
            l@.wf(),
            l@.nrows() == n,
            l@.ncols == n,
            forall|p: int, q: int|
                0 <= p < n && 0 <= q < n ==> (#[trigger] l@.rows[p][q]) == (if p < i {
                    chol_at(a@, p as nat, q as nat)
                } else {
                    zero::<T::M>()
                }),
            forall|p: nat| p < i ==> zero::<T::M>().lt(#[trigger] chol_pivot(a@, p)),
        decreases n - i,
    {
        let mut j: usize = 0;
        while j <= i
            invariant
                a.wf(),
                a@.wf(),
                a@.is_square(),
                n == a@.nrows(),
                nought@ == zero::<T::M>(),
                i < n,
                j <= i + 1,
                l.wf(),
                l@.wf(),
                l@.nrows() == n,
                l@.ncols == n,
                forall|p: int, q: int|
                    0 <= p < n && 0 <= q < n ==> (#[trigger] l@.rows[p][q]) == (if p < i || (p == i
                        && q < j) {
                        chol_at(a@, p as nat, q as nat)
                    } else {
                        zero::<T::M>()
                    }),
                forall|p: nat| p < i ==> zero::<T::M>().lt(#[trigger] chol_pivot(a@, p)),
                j == i + 1 ==> zero::<T::M>().lt(chol_pivot(a@, i as nat)),
            decreases i + 1 - j,
        {
            let mut sum = T::from_ratio(0, 1);
            let mut k: usize = 0;
            while k < j
                invariant
                    i < n,
                    j <= i,
                    k <= j,
                    l.wf(),
                    l@.wf(),
                    l@.nrows() == n,
                    l@.ncols == n,
                    forall|p: int, q: int|
                        0 <= p < n && 0 <= q < n ==> (#[trigger] l@.rows[p][q]) == (if p < i || (p
                            == i && q < j) {
                            chol_at(a@, p as nat, q as nat)
                        } else {
                            zero::<T::M>()
                        }),
                    sum@ == chol_sum(a@, i as nat, j as nat, k as nat),
                decreases j - k,
            {
                let x = l.get(i, k);
                let y = l.get(j, k);
                assert(x@ == l@.rows[i as int][k as int]);
                assert(y@ == l@.rows[j as int][k as int]);
                sum = sum.add(&x.mul(&y));
                k += 1;
            }
            let rest = a.get(i, j).sub(&sum);
            if j == i {
                assert(rest@ == chol_pivot(a@, i as nat));
                if !nought.lt(&rest) {
                    return None;
                }
                let e = rest.sqrt();
                assert(e@ == chol_at(a@, i as nat, j as nat));
                l.set(i, j, e);
            } else {
                let d = l.get(j, j);
                assert(d@ == l@.rows[j as int][j as int]);
                let e = rest.div(&d);
                assert(e@ == chol_at(a@, i as nat, j as nat));
                l.set(i, j, e);
            }
            proof {
                l.lemma_view_wf();
            }
            j += 1;
        }
        i += 1;
    }
    assert(l@.rows =~~= chol_grid(a@).rows);
    Some(l)
}

/// The first `n` entries of the solution `y` of `l y = b`, for a lower
/// triangular `l`, by forward substitution.
pub open spec fn forward<V: Scalar>(l: Grid<V>, b: Seq<V>, n: nat) -> Seq<V>
    decreases n,
{
    if n == 0 {
        Seq::empty()
    } else {
        let y = forward(l, b, (n - 1) as nat);
        y.push(b[n - 1].sub(dot_upto(l.rows[n - 1], y, (n - 1) as nat)).div(l.rows[n - 1][n - 1]))
    }
}

/// The sum of `l[p][i] * x[p]` over `i < p < k`, added up from the left.
pub open spec fn tail_dot<V: Scalar>(l: Grid<V>, x: Seq<V>, i: int, k: int) -> V
    decreases k - i,
{
    if k <= i + 1 {
        zero()
    } else {
        tail_dot(l, x, i, k - 1).add(l.rows[k - 1][i].mul(x[k - 1]))
    }
}

/// The solution `x` of `l^T x = y` after its last `m` entries have been
/// found by back substitution; the entries before them are zero.
pub open spec fn backward<V: Scalar>(l: Grid<V>, y: Seq<V>, m: nat) -> Seq<V>
    decreases m,
{
    if m == 0 {
        Seq::new(y.len(), |i: int| zero::<V>())
    } else {
        let x = backward(l, y, (m - 1) as nat);
        let i = y.len() - m;
        x.update(i, y[i].sub(tail_dot(l, x, i, y.len() as int)).div(l.rows[i][i]))
    }
}

/// The solution `x` of `a x = b` through the Cholesky factor `l` of `a`:
/// `l y = b`, then `l^T x = y`.
pub open spec fn chol_solve_model<V: Scalar>(l: Grid<V>, b: Seq<V>) -> Seq<V> {
    backward(l, forward(l, b, b.len()), b.len())
}

/// Column `j` of the identity of order `n`.
pub open spec fn unit_vec<V: Scalar>(n: nat, j: int) -> Seq<V> {
    Seq::new(
        n,
        |i: int|
            if i == j {
                one::<V>()
            } else {
                zero::<V>()
            },
    )
}

/// The inverse of the matrix whose Cholesky factor is `l`: column `j` solves
/// `a x = e_j`.
pub open spec fn chol_inverse_model<V: Scalar>(l: Grid<V>) -> Grid<V> {
    Grid::build(
        l.nrows(),
        l.nrows(),
        |i: int, j: int| chol_solve_model(l, unit_vec::<V>(l.nrows(), j))[i],
    )
}

/// Solves `l y = b` for a lower triangular `l`, of which only the lower
/// triangle is read.
pub fn solve_lower<T: Numeric>(l: &Matrix<T>, b: &Vec<T>) -> (y: Vec<T>)
    requires
        l.wf(),
        l@.is_square(),
        b@.len() == l@.nrows(),
    ensures
        models(y@) == forward(l@, models(b@), b@.len()),
        y@.len() == b@.len(),
{
    let n: usize = b.len();
    let mut y: Vec<T> = Vec::new();
    let mut i: usize = 0;
    proof {
        l.lemma_view_wf();
    }
    while i < n
        invariant
            l.wf(),
            l@.wf(),
            l@.is_square(),
            n == b@.len(),
            n == l@.nrows(),
            i <= n,
            y@.len() == i,
            models(y@) == forward(l@, models(b@), i as nat),
        decreases n - i,
    {
        let mut acc = T::from_ratio(0, 1);
        let mut k: usize = 0;
        while k < i
            invariant
                l.wf(),
                l@.wf(),
                l@.is_square(),
                n == l@.nrows(),
                i < n,
                k <= i,
                y@.len() == i,
                acc@ == dot_upto(l@.rows[i as int], models(y@), k as nat),
            decreases i - k,
        {
            let e = l.get(i, k);
            acc = acc.add(&e.mul(&y[k]));
            k += 1;
        }
        let d = l.get(i, i);
        let e = b[i].sub(&acc).div(&d);
        let ghost before = models(y@);
        y.push(e);
        assert(models(y@) =~= before.push(e@));
        i += 1;
    }
    y
}

/// Solves `l^T x = y` for a lower triangular `l`, of which only the lower
/// triangle is read.
pub fn solve_lower_transposed<T: Numeric>(l: &Matrix<T>, y: &Vec<T>) -> (x: Vec<T>)
    requires
        l.wf(),
        l@.is_square(),
        y@.len() == l@.nrows(),
    ensures
        models(x@) == backward(l@, models(y@), y@.len()),
        x@.len() == y@.len(),
{
    let n: usize = y.len();
    let mut x: Vec<T> = crate::linalg::dense::vzeros(n);
    assert(models(x@) =~= backward(l@, models(y@), 0));
    assert(x@.len() == models(x@).len());
    let mut m: usize = 0;
    proof {
        l.lemma_view_wf();
    }
    while m < n
        invariant
            l.wf(),
            l@.wf(),
            l@.is_square(),
            n == y@.len(),
            n == l@.nrows(),
            m <= n,
            x@.len() == n,
            models(x@) == backward(l@, models(y@), m as nat),
        decreases n - m,
    {
        let i: usize = n - m - 1;
        let mut acc = T::from_ratio(0, 1);
        let mut k: usize = i + 1;
        while k < n
            invariant
                l.wf(),
                l@.wf(),
                l@.is_square(),
                n == l@.nrows(),
                i < n,
                i + 1 <= k <= n,
                x@.len() == n,
                acc@ == tail_dot(l@, models(x@), i as int, k as int),
            decreases n - k,
        {
            let e = l.get(k, i);
            acc = acc.add(&e.mul(&x[k]));
            k += 1;
        }
        let d = l.get(i, i);
        let e = y[i].sub(&acc).div(&d);
        let ghost before = models(x@);
        x[i] = e;
        assert(models(x@) =~= before.update(i as int, e@));
        m += 1;
    }
    x
}

/// The inverse of a symmetric positive definite matrix, through its
/// Cholesky factor; `None` where the factorisation does not exist.
pub fn spd_inverse<T: Numeric>(a: &Matrix<T>) -> (r: Option<Matrix<T>>)
    requires
        a.wf(),
        a@.is_square(),
    ensures
        r.is_some() <==> chol_ok(a@),
        r matches Some(inv) ==> inv.wf() && inv@ == chol_inverse_model(chol_grid(a@)),
{
    let n: usize = a.nrows();
    let l = match cholesky(a) {
        Some(l) => l,
        None => {
            return None;
        },
    };
    let mut columns: Vec<Vec<T>> = Vec::new();
    let mut j: usize = 0;
    while j < n
        invariant
            l.wf(),
            l@ == chol_grid(a@),
            l@.is_square(),
            n == l@.nrows(),
            j <= n,
            columns@.len() == j,
            forall|c: int| 0 <= c < j ==> (#[trigger] columns@[c])@.len() == n,
            forall|c: int|
                0 <= c < j ==> models((#[trigger] columns@[c])@) == chol_solve_model(
                    l@,
                    unit_vec::<T::M>(n as nat, c),
                ),
        decreases n - j,
    {
        let mut e: Vec<T> = Vec::new();
        let mut i: usize = 0;
        while i < n
            invariant
                i <= n,
                j < n,
                e@.len() == i,
                forall|p: int|
                    0 <= p < i ==> (#[trigger] e@[p])@ == (if p == j {
                        one::<T::M>()
                    } else {
                        zero::<T::M>()
                    }),
            decreases n - i,
        {
            if i == j {
                e.push(T::from_ratio(1, 1));
            } else {
                e.push(T::from_ratio(0, 1));
            }
            i += 1;
        }
        assert(models(e@) =~= unit_vec::<T::M>(n as nat, j as int));
        let y = solve_lower(&l, &e);
        let x = solve_lower_transposed(&l, &y);
        assert(models(y@).len() == y@.len());
        columns.push(x);
        j += 1;
    }
    let by_columns = Matrix::from_rows(columns, n);
    let inv = by_columns.transpose();
    assert(inv@.rows =~~= chol_inverse_model(chol_grid(a@)).rows);
    Some(inv)
}

} // verus!
