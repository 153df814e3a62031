//! Dense matrices over any scalar, stored row by row.

use vstd::prelude::*;
use crate::linalg::dense::dot_upto;
use crate::linalg::numeric::{models, one, zero, Numeric, Scalar};

verus! {

/// The model of a matrix: its rows, each `ncols` long.
pub struct Grid<V> {
    pub ncols: nat,
    pub rows: Seq<Seq<V>>,
}

impl<V> Grid<V> {
    /// The number of rows.
    pub open spec fn nrows(self) -> nat {
        self.rows.len()
    }

    /// Every row has `ncols` entries.
    pub open spec fn wf(self) -> bool {
        forall|i: int| 0 <= i < self.rows.len() ==> (#[trigger] self.rows[i]).len() == self.ncols
    }

    /// The entry in row `i` and column `j`.
    pub open spec fn at(self, i: int, j: int) -> V {
        self.rows[i][j]
    }

    /// Column `j`, from the top.
    pub open spec fn col(self, j: int) -> Seq<V> {
        Seq::new(self.rows.len(), |i: int| self.rows[i][j])
    }

    /// The grid of the given shape whose entry at `(i, j)` is `f(i, j)`.
    pub open spec fn build(nrows: nat, ncols: nat, f: spec_fn(int, int) -> V) -> Grid<V> {
        Grid { ncols, rows: Seq::new(nrows, |i: int| Seq::new(ncols, |j: int| f(i, j))) }
    }

    /// There are as many rows as columns.
    pub open spec fn is_square(self) -> bool {
        self.rows.len() == self.ncols
    }

    /// `self` with the entry at `(i, j)` replaced by `v`.
    pub open spec fn with_entry(self, i: int, j: int, v: V) -> Grid<V> {
        Grid { ncols: self.ncols, rows: self.rows.update(i, self.rows[i].update(j, v)) }
    }
}

impl<V: Scalar> Grid<V> {
    /// The grid of the given shape with every entry zero.
    pub open spec fn zeros(nrows: nat, ncols: nat) -> Grid<V> {
        Grid::build(nrows, ncols, |i: int, j: int| zero::<V>())
    }

    /// The square grid with `d` on its diagonal and zero elsewhere.
    pub open spec fn diagonal(d: Seq<V>) -> Grid<V> {
        Grid::build(
            d.len(),
            d.len(),
            |i: int, j: int|
                if i == j {
                    d[i]
                } else {
                    zero::<V>()
                },
        )
    }

    /// The identity of order `n`.
    pub open spec fn identity(n: nat) -> Grid<V> {
        Grid::diagonal(Seq::new(n, |i: int| one::<V>()))
    }

    /// The transpose.
    pub open spec fn transpose(self) -> Grid<V> {
        Grid::build(self.ncols, self.nrows(), |i: int, j: int| self.rows[j][i])
    }

    /// The entrywise sum of two grids of one shape.
    pub open spec fn add(self, rhs: Grid<V>) -> Grid<V> {
        Grid::build(self.nrows(), self.ncols, |i: int, j: int| self.rows[i][j].add(rhs.rows[i][j]))
    }

    /// The entrywise difference of two grids of one shape.
    pub open spec fn sub(self, rhs: Grid<V>) -> Grid<V> {
        Grid::build(self.nrows(), self.ncols, |i: int, j: int| self.rows[i][j].sub(rhs.rows[i][j]))
    }

    /// Every entry multiplied by `s` from the right.
    pub open spec fn scale(self, s: V) -> Grid<V> {
        Grid::build(self.nrows(), self.ncols, |i: int, j: int| self.rows[i][j].mul(s))
    }

    /// Every entry negated.
    pub open spec fn neg(self) -> Grid<V> {
        Grid::build(self.nrows(), self.ncols, |i: int, j: int| self.rows[i][j].neg())
    }

    /// The matrix product: entry `(i, j)` is row `i` of `self` times column
    /// `j` of `rhs`, summed from the left.
    pub open spec fn matmul(self, rhs: Grid<V>) -> Grid<V> {
        Grid::build(
            self.nrows(),
            rhs.ncols,
            |i: int, j: int| dot_upto(self.rows[i], rhs.col(j), self.ncols),
        )
    }

    /// The product with a column vector.
    pub open spec fn mul_vec(self, v: Seq<V>) -> Seq<V> {
        Seq::new(self.nrows(), |i: int| dot_upto(self.rows[i], v, self.ncols))
    }

    /// The 2 by 2 grid of the given entries, row by row.
    pub open spec fn of2(a: V, b: V, c: V, d: V) -> Grid<V> {
        Grid { ncols: 2, rows: seq![seq![a, b], seq![c, d]] }
    }

    /// The 3 by 3 grid of the given entries, row by row.
    pub open spec fn of3(a: V, b: V, c: V, d: V, e: V, f: V, g: V, h: V, i: V) -> Grid<V> {
        Grid { ncols: 3, rows: seq![seq![a, b, c], seq![d, e, f], seq![g, h, i]] }
    }

    /// The grid of one column that holds `v`.
    pub open spec fn column(v: Seq<V>) -> Grid<V> {
        Grid::build(v.len(), 1, |i: int, j: int| v[i])
    }

    /// The inverse of a 2 by 2 grid: its adjugate over its determinant.
    pub open spec fn inverse2(self) -> Grid<V> {
        let det = self.rows[0][0].mul(self.rows[1][1]).sub(self.rows[1][0].mul(self.rows[0][1]));
        Grid::of2(
            self.rows[1][1].div(det),
            self.rows[0][1].neg().div(det),
            self.rows[1][0].neg().div(det),
            self.rows[0][0].div(det),
        )
    }

    /// The inverse of a 3 by 3 grid: its adjugate over its determinant.
    pub open spec fn inverse3(self) -> Grid<V> {
        let minor0 = self.rows[1][1].mul(self.rows[2][2]).sub(self.rows[2][1].mul(self.rows[1][2]));
        let minor1 = self.rows[1][0].mul(self.rows[2][2]).sub(self.rows[2][0].mul(self.rows[1][2]));
        let minor2 = self.rows[1][0].mul(self.rows[2][1]).sub(self.rows[2][0].mul(self.rows[1][1]));
        let det = self.rows[0][0].mul(minor0)
            .sub(self.rows[0][1].mul(minor1))
            .add(self.rows[0][2].mul(minor2));
        Grid::of3(
            minor0.div(det),
            self.rows[0][2].mul(self.rows[2][1]).sub(self.rows[2][2].mul(self.rows[0][1])).div(det),
            self.rows[0][1].mul(self.rows[1][2]).sub(self.rows[1][1].mul(self.rows[0][2])).div(det),
            minor1.neg().div(det),
            self.rows[0][0].mul(self.rows[2][2]).sub(self.rows[2][0].mul(self.rows[0][2])).div(det),
            self.rows[0][2].mul(self.rows[1][0]).sub(self.rows[1][2].mul(self.rows[0][0])).div(det),
            minor2.div(det),
            self.rows[0][1].mul(self.rows[2][0]).sub(self.rows[2][1].mul(self.rows[0][0])).div(det),
            self.rows[0][0].mul(self.rows[1][1]).sub(self.rows[1][0].mul(self.rows[0][1])).div(det),
        )
    }

    /// `self` with `block` written over it, the block's first entry at
    /// `(r0, c0)`.
    pub open spec fn with_block(self, r0: int, c0: int, block: Grid<V>) -> Grid<V> {
        Grid::build(
            self.nrows(),
            self.ncols,
            |i: int, j: int|
                if r0 <= i < r0 + block.nrows() && c0 <= j < c0 + block.ncols {
                    block.rows[i - r0][j - c0]
                } else {
                    self.rows[i][j]
                },
        )
    }

    /// `self` with `block` added onto it, the block's first entry at
    /// `(r0, c0)`.
    pub open spec fn add_block(self, r0: int, c0: int, block: Grid<V>) -> Grid<V> {
        Grid::build(
            self.nrows(),
            self.ncols,
            |i: int, j: int|
                if r0 <= i < r0 + block.nrows() && c0 <= j < c0 + block.ncols {
                    self.rows[i][j].add(block.rows[i - r0][j - c0])
                } else {
                    self.rows[i][j]
                },
        )
    }

    /// The diagonal of a square grid.
    pub open spec fn diag(self) -> Seq<V> {
        Seq::new(self.nrows(), |i: int| self.rows[i][i])
    }

    /// The `nr` by `nc` part of `self` that starts at `(r0, c0)`.
    pub open spec fn block(self, r0: int, c0: int, nr: nat, nc: nat) -> Grid<V> {
        Grid::build(nr, nc, |i: int, j: int| self.rows[r0 + i][c0 + j])
    }
}

/// A dense matrix.
pub struct Matrix<T> {
    rows: Vec<Vec<T>>,
    ncols: usize,
}

impl<T: Numeric> View for Matrix<T> {
    type V = Grid<T::M>;

    closed spec fn view(&self) -> Grid<T::M> {
        Grid { ncols: self.ncols as nat, rows: Seq::new(self.rows@.len(), |i: int| models(self.rows@[i]@)) }
    }
}

impl<T: Numeric> Matrix<T> {
    /// Every stored row has `ncols` entries.
    pub closed spec fn wf(&self) -> bool {
        forall|i: int| 0 <= i < self.rows@.len() ==> (#[trigger] self.rows@[i])@.len() == self.ncols
    }

    /// The model of a matrix that is stored whole is well formed.
    pub proof fn lemma_view_wf(&self)
        requires
            self.wf(),
        ensures
            self@.wf(),
    {
    }

    /// The number of rows.
    pub fn nrows(&self) -> (r: usize)
        ensures
            r == self@.nrows(),
    {
        self.rows.len()
    }

    /// The number of columns.
    pub fn ncols(&self) -> (r: usize)
        ensures
            r == self@.ncols,
    {
        self.ncols
    }

    /// The entry in row `i` and column `j`.
    pub fn get(&self, i: usize, j: usize) -> (r: T)
        requires
            self.wf(),
            i < self@.nrows(),
            j < self@.ncols,
        ensures
            r@ == self@.at(i as int, j as int),
    {
        self.rows[i][j].copy()
    }

    /// Replaces the entry in row `i` and column `j` by `v`.
    pub fn set(&mut self, i: usize, j: usize, v: T)
        requires
            old(self).wf(),
            i < old(self)@.nrows(),
            j < old(self)@.ncols,
        ensures
            final(self).wf(),
            final(self)@ == old(self)@.with_entry(i as int, j as int, v@),
    {
        let ghost before = self.rows@;
        self.rows[i][j] = v;
        assert(self.rows@.len() == before.len());
        assert(forall|k: int| 0 <= k < before.len() && k != i ==> self.rows@[k] == before[k]);
        assert(self.rows@[i as int]@ == before[i as int]@.update(j as int, v));
        assert(self@.rows =~~= old(self)@.rows.update(
            i as int,
            old(self)@.rows[i as int].update(j as int, v@),
        ));
    }

    /// The matrix of the given shape with every entry zero.
    pub fn zeros(nrows: usize, ncols: usize) -> (r: Matrix<T>)
        ensures
            r.wf(),
            r@ == Grid::<T::M>::zeros(nrows as nat, ncols as nat),
    {
        let nr: usize = nrows;
        let nc: usize = ncols;
        let mut rows: Vec<Vec<T>> = Vec::new();
        let mut i: usize = 0;
        while i < nr
            invariant
                nr == nrows,
                nc == ncols,
                i <= nr,
                rows@.len() == i,
                forall|k: int| 0 <= k < i ==> (#[trigger] rows@[k])@.len() == nc,
                forall|k: int, l: int|
                    0 <= k < i && 0 <= l < nc ==> (#[trigger] rows@[k]@[l])@ == zero::<T::M>(),
            decreases nr - i,
        {
            let mut row: Vec<T> = Vec::new();
            let mut j: usize = 0;
            while j < nc
                invariant
                    nr == nrows,
                    nc == ncols,
                    i < nr,
                    j <= nc,
                    row@.len() == j,
                    forall|l: int| 0 <= l < j ==> (#[trigger] row@[l])@ == zero::<T::M>(),
                decreases nc - j,
            {
                let e = T::from_ratio(0, 1);
                row.push(e);
                j += 1;
            }
            rows.push(row);
            i += 1;
        }
        let r = Matrix { rows, ncols: nc };
        assert(r@.rows =~~= (Grid::<T::M>::zeros(nrows as nat, ncols as nat)).rows);
        r
    }

    /// The square matrix with `d` on its diagonal and zero elsewhere.
    pub fn from_diagonal(d: &Vec<T>) -> (r: Matrix<T>)
        ensures
            r.wf(),
            r@ == Grid::diagonal(models(d@)),
    {
        let nr: usize = d.len();
        let nc: usize = d.len();
        let mut rows: Vec<Vec<T>> = Vec::new();
        let mut i: usize = 0;
        while i < nr
            invariant
                nr == d.len(),
                nc == d.len(),
                i <= nr,
                rows@.len() == i,
                forall|k: int| 0 <= k < i ==> (#[trigger] rows@[k])@.len() == nc,
                forall|k: int, l: int|
                    0 <= k < i && 0 <= l < nc ==> (#[trigger] rows@[k]@[l])@
                        == (if k == l {
                            d@[k]@
                        } else {
                            zero::<T::M>()
                        }),
            decreases nr - i,
        {
            let mut row: Vec<T> = Vec::new();
            let mut j: usize = 0;
            while j < nc
                invariant
                    nr == d.len(),
                    nc == d.len(),
                    i < nr,
                    j <= nc,
                    row@.len() == j,
                    forall|l: int|
                        0 <= l < j ==> (#[trigger] row@[l])@ == (if (i as int) == l {
                            d@[i as int]@
                        } else {
                            zero::<T::M>()
                        }),
                decreases nc - j,
            {
                let e = if i == j { d[i].copy() } else { T::from_ratio(0, 1) };
                row.push(e);
                j += 1;
            }
            rows.push(row);
            i += 1;
        }
        let r = Matrix { rows, ncols: nc };
        assert(r@.rows =~~= (Grid::diagonal(models(d@))).rows);
        r
    }

    /// The identity matrix of order `n`.
    pub fn identity(n: usize) -> (r: Matrix<T>)
        ensures
            r.wf(),
            r@ == Grid::<T::M>::identity(n as nat),
    {
        let nr: usize = n;
        let nc: usize = n;
        let mut rows: Vec<Vec<T>> = Vec::new();
        let mut i: usize = 0;
        while i < nr
            invariant
                nr == n,
                nc == n,
                i <= nr,
                rows@.len() == i,
                forall|k: int| 0 <= k < i ==> (#[trigger] rows@[k])@.len() == nc,
                forall|k: int, l: int|
                    0 <= k < i && 0 <= l < nc ==> (#[trigger] rows@[k]@[l])@
                        == (if k == l {
                            one::<T::M>()
                        } else {
                            zero::<T::M>()
                        }),
            decreases nr - i,
        {
            let mut row: Vec<T> = Vec::new();
            let mut j: usize = 0;
            while j < nc
                invariant
                    nr == n,
                    nc == n,
                    i < nr,
                    j <= nc,
                    row@.len() == j,
                    forall|l: int|
                        0 <= l < j ==> (#[trigger] row@[l])@ == (if (i as int) == l {
                            one::<T::M>()
                        } else {
                            zero::<T::M>()
                        }),
                decreases nc - j,
            {
                let e = if i == j { T::from_ratio(1, 1) } else { T::from_ratio(0, 1) };
                row.push(e);
                j += 1;
            }
            rows.push(row);
            i += 1;
        }
        let r = Matrix { rows, ncols: nc };
        assert(r@.rows =~~= (Grid::<T::M>::identity(n as nat)).rows);
        r
    }

    /// A copy of the matrix.
    pub fn copy(&self) -> (r: Matrix<T>)
        requires
            self.wf(),
        ensures
            r.wf(),
            r@ == self@,
    {
        let nr: usize = self.rows.len();
        let nc: usize = self.ncols;
        let mut rows: Vec<Vec<T>> = Vec::new();
        let mut i: usize = 0;
        while i < nr
            invariant
                self.wf(),
                nr == self.rows.len(),
                nc == self.ncols,
                i <= nr,
                rows@.len() == i,
                forall|k: int| 0 <= k < i ==> (#[trigger] rows@[k])@.len() == nc,
                forall|k: int, l: int|
                    0 <= k < i && 0 <= l < nc ==> (#[trigger] rows@[k]@[l])@ == self@.rows[k][l],
            decreases nr - i,
        {
            let mut row: Vec<T> = Vec::new();
            let mut j: usize = 0;
            while j < nc
                invariant
                self.wf(),
                    nr == self.rows.len(),
                    nc == self.ncols,
                    i < nr,
                    j <= nc,
                    row@.len() == j,
                    forall|l: int| 0 <= l < j ==> (#[trigger] row@[l])@ == self@.rows[i as int][l],
                decreases nc - j,
            {
                let e = self.rows[i][j].copy();
                row.push(e);
                j += 1;
            }
            rows.push(row);
            i += 1;
        }
        let r = Matrix { rows, ncols: nc };
        assert(r@.rows =~~= (self@).rows);
        r
    }

    /// The transpose.
    pub fn transpose(&self) -> (r: Matrix<T>)
        requires
            self.wf(),
        ensures
            r.wf(),
            r@ == self@.transpose(),
    {
        let nr: usize = self.ncols;
        let nc: usize = self.rows.len();
        let mut rows: Vec<Vec<T>> = Vec::new();
        let mut i: usize = 0;
        while i < nr
            invariant
                self.wf(),
                nr == self.ncols,
                nc == self.rows.len(),
                i <= nr,
                rows@.len() == i,
                forall|k: int| 0 <= k < i ==> (#[trigger] rows@[k])@.len() == nc,
                forall|k: int, l: int|
                    0 <= k < i && 0 <= l < nc ==> (#[trigger] rows@[k]@[l])@ == self@.rows[l][k],
            decreases nr - i,
        {
            let mut row: Vec<T> = Vec::new();
            let mut j: usize = 0;
            while j < nc
                invariant
                self.wf(),
                    nr == self.ncols,
                    nc == self.rows.len(),
                    i < nr,
                    j <= nc,
                    row@.len() == j,
                    forall|l: int| 0 <= l < j ==> (#[trigger] row@[l])@ == self@.rows[l][i as int],
                decreases nc - j,
            {
                let e = self.rows[j][i].copy();
                row.push(e);
                j += 1;
            }
            rows.push(row);
            i += 1;
        }
        let r = Matrix { rows, ncols: nc };
        assert(r@.rows =~~= (self@.transpose()).rows);
        r
    }

    /// The entrywise sum of two matrices of one shape.
    pub fn add(&self, rhs: &Matrix<T>) -> (r: Matrix<T>)
        requires
            self.wf(),
            rhs.wf(),
            self@.nrows() == rhs@.nrows(),
            self@.ncols == rhs@.ncols,
        ensures
            r.wf(),
            r@ == self@.add(rhs@),
    {
        let nr: usize = self.rows.len();
        let nc: usize = self.ncols;
        let mut rows: Vec<Vec<T>> = Vec::new();
        let mut i: usize = 0;
        while i < nr
            invariant
                self.wf(),
                rhs.wf(),
                self@.nrows() == rhs@.nrows(),
                self@.ncols == rhs@.ncols,
                nr == self.rows.len(),
                nc == self.ncols,
                i <= nr,
                rows@.len() == i,
                forall|k: int| 0 <= k < i ==> (#[trigger] rows@[k])@.len() == nc,
                forall|k: int, l: int|
                    0 <= k < i && 0 <= l < nc ==> (#[trigger] rows@[k]@[l])@
                        == self@.rows[k][l].add(rhs@.rows[k][l]),
            decreases nr - i,
        {
            let mut row: Vec<T> = Vec::new();
            let mut j: usize = 0;
            while j < nc
                invariant
                self.wf(),
                rhs.wf(),
                self@.nrows() == rhs@.nrows(),
                self@.ncols == rhs@.ncols,
                    nr == self.rows.len(),
                    nc == self.ncols,
                    i < nr,
                    j <= nc,
                    row@.len() == j,
                    forall|l: int|
                        0 <= l < j ==> (#[trigger] row@[l])@ == self@.rows[i as int][l].add(rhs@.rows[i as int][l]),
                decreases nc - j,
            {
                let e = self.rows[i][j].add(&rhs.rows[i][j]);
                row.push(e);
                j += 1;
            }
            rows.push(row);
            i += 1;
        }
        let r = Matrix { rows, ncols: nc };
        assert(r@.rows =~~= (self@.add(rhs@)).rows);
        r
    }

    /// The entrywise difference of two matrices of one shape.
    pub fn sub(&self, rhs: &Matrix<T>) -> (r: Matrix<T>)
        requires
            self.wf(),
            rhs.wf(),
            self@.nrows() == rhs@.nrows(),
            self@.ncols == rhs@.ncols,
        ensures
            r.wf(),
            r@ == self@.sub(rhs@),
    {
        let nr: usize = self.rows.len();
        let nc: usize = self.ncols;
        let mut rows: Vec<Vec<T>> = Vec::new();
        let mut i: usize = 0;
        while i < nr
            invariant
                self.wf(),
                rhs.wf(),
                self@.nrows() == rhs@.nrows(),
                self@.ncols == rhs@.ncols,
                nr == self.rows.len(),
                nc == self.ncols,
                i <= nr,
                rows@.len() == i,
                forall|k: int| 0 <= k < i ==> (#[trigger] rows@[k])@.len() == nc,
                forall|k: int, l: int|
                    0 <= k < i && 0 <= l < nc ==> (#[trigger] rows@[k]@[l])@
                        == self@.rows[k][l].sub(rhs@.rows[k][l]),
            decreases nr - i,
        {
            let mut row: Vec<T> = Vec::new();
            let mut j: usize = 0;
            while j < nc
                invariant
                self.wf(),
                rhs.wf(),
                self@.nrows() == rhs@.nrows(),
                self@.ncols == rhs@.ncols,
                    nr == self.rows.len(),
                    nc == self.ncols,
                    i < nr,
                    j <= nc,
                    row@.len() == j,
                    forall|l: int|
                        0 <= l < j ==> (#[trigger] row@[l])@ == self@.rows[i as int][l].sub(rhs@.rows[i as int][l]),
                decreases nc - j,
            {
                let e = self.rows[i][j].sub(&rhs.rows[i][j]);
                row.push(e);
                j += 1;
            }
            rows.push(row);
            i += 1;
        }
        let r = Matrix { rows, ncols: nc };
        assert(r@.rows =~~= (self@.sub(rhs@)).rows);
        r
    }

    /// Every entry multiplied by `s` from the right.
    pub fn scale(&self, s: &T) -> (r: Matrix<T>)
        requires
            self.wf(),
        ensures
            r.wf(),
            r@ == self@.scale(s@),
    {
        let nr: usize = self.rows.len();
        let nc: usize = self.ncols;
        let mut rows: Vec<Vec<T>> = Vec::new();
        let mut i: usize = 0;
        while i < nr
            invariant
                self.wf(),
                nr == self.rows.len(),
                nc == self.ncols,
                i <= nr,
                rows@.len() == i,
                forall|k: int| 0 <= k < i ==> (#[trigger] rows@[k])@.len() == nc,
                forall|k: int, l: int|
                    0 <= k < i && 0 <= l < nc ==> (#[trigger] rows@[k]@[l])@
                        == self@.rows[k][l].mul(s@),
            decreases nr - i,
        {
            let mut row: Vec<T> = Vec::new();
            let mut j: usize = 0;
            while j < nc
                invariant
                self.wf(),
                    nr == self.rows.len(),
                    nc == self.ncols,
                    i < nr,
                    j <= nc,
                    row@.len() == j,
                    forall|l: int|
                        0 <= l < j ==> (#[trigger] row@[l])@ == self@.rows[i as int][l].mul(s@),
                decreases nc - j,
            {
                let e = self.rows[i][j].mul(s);
                row.push(e);
                j += 1;
            }
            rows.push(row);
            i += 1;
        }
        let r = Matrix { rows, ncols: nc };
        assert(r@.rows =~~= (self@.scale(s@)).rows);
        r
    }

    /// Every entry negated.
    pub fn neg(&self) -> (r: Matrix<T>)
        requires
            self.wf(),
        ensures
            r.wf(),
            r@ == self@.neg(),
    {
        let nr: usize = self.rows.len();
        let nc: usize = self.ncols;
        let mut rows: Vec<Vec<T>> = Vec::new();
        let mut i: usize = 0;
        while i < nr
            invariant
                self.wf(),
                nr == self.rows.len(),
                nc == self.ncols,
                i <= nr,
                rows@.len() == i,
                forall|k: int| 0 <= k < i ==> (#[trigger] rows@[k])@.len() == nc,
                forall|k: int, l: int|
                    0 <= k < i && 0 <= l < nc ==> (#[trigger] rows@[k]@[l])@
                        == self@.rows[k][l].neg(),
            decreases nr - i,
        {
            let mut row: Vec<T> = Vec::new();
            let mut j: usize = 0;
            while j < nc
                invariant
                self.wf(),
                    nr == self.rows.len(),
                    nc == self.ncols,
                    i < nr,
                    j <= nc,
                    row@.len() == j,
                    forall|l: int|
                        0 <= l < j ==> (#[trigger] row@[l])@ == self@.rows[i as int][l].neg(),
                decreases nc - j,
            {
                let e = self.rows[i][j].neg();
                row.push(e);
                j += 1;
            }
            rows.push(row);
            i += 1;
        }
        let r = Matrix { rows, ncols: nc };
        assert(r@.rows =~~= (self@.neg()).rows);
        r
    }

    /// The `nr` by `nc` part that starts at `(r0, c0)`.
    pub fn block(&self, r0: usize, c0: usize, nrows: usize, ncols: usize) -> (r: Matrix<T>)
        requires
            self.wf(),
            r0 + nrows <= self@.nrows(),
            c0 + ncols <= self@.ncols,
        ensures
            r.wf(),
            r@ == self@.block(r0 as int, c0 as int, nrows as nat, ncols as nat),
    {
        let nr: usize = nrows;
        let nc: usize = ncols;
        let mut rows: Vec<Vec<T>> = Vec::new();
        let mut i: usize = 0;
        while i < nr
            invariant
                self.wf(),
                r0 + nrows <= self@.nrows(),
                c0 + ncols <= self@.ncols,
                nr == nrows,
                nc == ncols,
                i <= nr,
                rows@.len() == i,
                forall|k: int| 0 <= k < i ==> (#[trigger] rows@[k])@.len() == nc,
                forall|k: int, l: int|
                    0 <= k < i && 0 <= l < nc ==> (#[trigger] rows@[k]@[l])@
                        == self@.rows[r0 + k][c0 + l],
            decreases nr - i,
        {
            let mut row: Vec<T> = Vec::new();
            let mut j: usize = 0;
            while j < nc
                invariant
                self.wf(),
                r0 + nrows <= self@.nrows(),
                c0 + ncols <= self@.ncols,
                    nr == nrows,
                    nc == ncols,
                    i < nr,
                    j <= nc,
                    row@.len() == j,
                    forall|l: int|
                        0 <= l < j ==> (#[trigger] row@[l])@ == self@.rows[r0 + i as int][c0 + l],
                decreases nc - j,
            {
                let height: usize = self.rows.len();
                assert(r0 + i < height);
                let e = self.rows[r0 + i][c0 + j].copy();
                row.push(e);
                j += 1;
            }
            rows.push(row);
            i += 1;
        }
        let r = Matrix { rows, ncols: nc };
        assert(r@.rows =~~= (self@.block(r0 as int, c0 as int, nrows as nat, ncols as nat)).rows);
        r
    }

    /// A copy with `block` written over it, the block's first entry at `(r0, c0)`.
    pub fn with_block(&self, r0: usize, c0: usize, block: &Matrix<T>) -> (r: Matrix<T>)
        requires
            self.wf(),
            block.wf(),
            r0 + block@.nrows() <= self@.nrows(),
            c0 + block@.ncols <= self@.ncols,
        ensures
            r.wf(),
            r@ == self@.with_block(r0 as int, c0 as int, block@),
    {
        let nr: usize = self.rows.len();
        let nc: usize = self.ncols;
        let mut rows: Vec<Vec<T>> = Vec::new();
        let mut i: usize = 0;
        while i < nr
            invariant
                self.wf(),
                block.wf(),
                r0 + block@.nrows() <= self@.nrows(),
                c0 + block@.ncols <= self@.ncols,
                nr == self.rows.len(),
                nc == self.ncols,
                i <= nr,
                rows@.len() == i,
                forall|k: int| 0 <= k < i ==> (#[trigger] rows@[k])@.len() == nc,
                forall|k: int, l: int|
                    0 <= k < i && 0 <= l < nc ==> (#[trigger] rows@[k]@[l])@
                        == (if r0 <= k < r0 + block@.nrows() && c0 <= l < c0 + block@.ncols {
                            block@.rows[k - r0][l - c0]
                        } else {
                            self@.rows[k][l]
                        }),
            decreases nr - i,
        {
            let mut row: Vec<T> = Vec::new();
            let mut j: usize = 0;
            while j < nc
                invariant
                self.wf(),
                block.wf(),
                r0 + block@.nrows() <= self@.nrows(),
                c0 + block@.ncols <= self@.ncols,
                    nr == self.rows.len(),
                    nc == self.ncols,
                    i < nr,
                    j <= nc,
                    row@.len() == j,
                    forall|l: int|
                        0 <= l < j ==> (#[trigger] row@[l])@ == (if r0 <= (i as int) < r0 + block@.nrows() && c0 <= l < c0 + block@.ncols {
                            block@.rows[i as int - r0][l - c0]
                        } else {
                            self@.rows[i as int][l]
                        }),
                decreases nc - j,
            {
                let e = if r0 <= i
                    && i - r0 < block.rows.len()
                    && c0 <= j
                    && j - c0 < block.ncols {
                    block.rows[i - r0][j - c0].copy()
                } else {
                    self.rows[i][j].copy()
                };
                row.push(e);
                j += 1;
            }
            rows.push(row);
            i += 1;
        }
        let r = Matrix { rows, ncols: nc };
        assert(r@.rows =~~= (self@.with_block(r0 as int, c0 as int, block@)).rows);
        r
    }

    /// The matrix product `self * rhs`.
    pub fn matmul(&self, rhs: &Matrix<T>) -> (r: Matrix<T>)
        requires
            self.wf(),
            rhs.wf(),
            self@.ncols == rhs@.nrows(),
        ensures
            r.wf(),
            r@ == self@.matmul(rhs@),
    {
        let nr: usize = self.rows.len();
        let nc: usize = rhs.ncols;
        let inner: usize = self.ncols;
        let mut rows: Vec<Vec<T>> = Vec::new();
        let mut i: usize = 0;
        while i < nr
            invariant
                self.wf(),
                rhs.wf(),
                self@.ncols == rhs@.nrows(),
                nr == self@.nrows(),
                nc == rhs@.ncols,
                inner == self@.ncols,
                i <= nr,
                rows@.len() == i,
                forall|k: int| 0 <= k < i ==> (#[trigger] rows@[k])@.len() == nc,
                forall|k: int, l: int|
                    0 <= k < i && 0 <= l < nc ==> (#[trigger] rows@[k]@[l])@ == dot_upto(
                        self@.rows[k],
                        rhs@.col(l),
                        inner as nat,
                    ),
            decreases nr - i,
        {
            let mut row: Vec<T> = Vec::new();
            let mut j: usize = 0;
            while j < nc
                invariant
                    self.wf(),
                    rhs.wf(),
                    self@.ncols == rhs@.nrows(),
                    nr == self@.nrows(),
                    nc == rhs@.ncols,
                    inner == self@.ncols,
                    i < nr,
                    j <= nc,
                    row@.len() == j,
                    forall|l: int|
                        0 <= l < j ==> (#[trigger] row@[l])@ == dot_upto(
                            self@.rows[i as int],
                            rhs@.col(l),
                            inner as nat,
                        ),
                decreases nc - j,
            {
                let mut acc = T::from_ratio(0, 1);
                let mut k: usize = 0;
                while k < inner
                    invariant
                        self.wf(),
                        rhs.wf(),
                        self@.ncols == rhs@.nrows(),
                        nr == self@.nrows(),
                        nc == rhs@.ncols,
                        inner == self@.ncols,
                        i < nr,
                        j < nc,
                        k <= inner,
                        acc@ == dot_upto(self@.rows[i as int], rhs@.col(j as int), k as nat),
                    decreases inner - k,
                {
                    acc = acc.add(&self.rows[i][k].mul(&rhs.rows[k][j]));
                    k += 1;
                }
                row.push(acc);
                j += 1;
            }
            rows.push(row);
            i += 1;
        }
        let r = Matrix { rows, ncols: nc };
        assert(r@.rows =~~= self@.matmul(rhs@).rows);
        r
    }

    /// The product `self * v` with a column vector.
    pub fn mul_vec(&self, v: &Vec<T>) -> (r: Vec<T>)
        requires
            self.wf(),
            self@.ncols == v@.len(),
        ensures
            r@.len() == self@.nrows(),
            models(r@) == self@.mul_vec(models(v@)),
    {
        let nr: usize = self.rows.len();
        let inner: usize = self.ncols;
        let mut out: Vec<T> = Vec::new();
        let mut i: usize = 0;
        while i < nr
            invariant
                self.wf(),
                self@.ncols == v@.len(),
                nr == self@.nrows(),
                inner == self@.ncols,
                i <= nr,
                out@.len() == i,
                forall|k: int|
                    0 <= k < i ==> (#[trigger] out@[k])@ == dot_upto(
                        self@.rows[k],
                        models(v@),
                        inner as nat,
                    ),
            decreases nr - i,
        {
            let mut acc = T::from_ratio(0, 1);
            let mut k: usize = 0;
            while k < inner
                invariant
                    self.wf(),
                    self@.ncols == v@.len(),
                    nr == self@.nrows(),
                    inner == self@.ncols,
                    i < nr,
                    k <= inner,
                    acc@ == dot_upto(self@.rows[i as int], models(v@), k as nat),
                decreases inner - k,
            {
                acc = acc.add(&self.rows[i][k].mul(&v[k]));
                k += 1;
            }
            out.push(acc);
            i += 1;
        }
        assert(models(out@) =~= self@.mul_vec(models(v@)));
        out
    }

    /// The matrix with the given rows, each `ncols` long.
    pub fn from_rows(rows: Vec<Vec<T>>, ncols: usize) -> (r: Matrix<T>)
        requires
            forall|i: int| 0 <= i < rows@.len() ==> (#[trigger] rows@[i])@.len() == ncols,
        ensures
            r.wf(),
            r@ == (Grid {
                ncols: ncols as nat,
                rows: Seq::new(rows@.len(), |i: int| models(rows@[i]@)),
            }),
    {
        Matrix { rows, ncols }
    }

    /// Row `i`.
    pub fn row(&self, i: usize) -> (r: &Vec<T>)
        requires
            self.wf(),
            i < self@.nrows(),
        ensures
            models(r@) == self@.rows[i as int],
            r@.len() == self@.ncols,
    {
        &self.rows[i]
    }

    /// The 2 by 2 matrix of the given entries, row by row.
    pub fn of2(a: &T, b: &T, c: &T, d: &T) -> (r: Matrix<T>)
        ensures
            r.wf(),
            r@ == Grid::of2(a@, b@, c@, d@),
    {
        let mut top: Vec<T> = Vec::new();
        top.push(a.copy());
        top.push(b.copy());
        let mut bottom: Vec<T> = Vec::new();
        bottom.push(c.copy());
        bottom.push(d.copy());
        let mut rows: Vec<Vec<T>> = Vec::new();
        rows.push(top);
        rows.push(bottom);
        let r = Matrix { rows, ncols: 2 };
        assert(r@.rows =~~= Grid::of2(a@, b@, c@, d@).rows);
        r
    }

    /// The 3 by 3 matrix of the given entries, row by row.
    pub fn of3(a: &T, b: &T, c: &T, d: &T, e: &T, f: &T, g: &T, h: &T, i: &T) -> (r: Matrix<T>)
        ensures
            r.wf(),
            r@ == Grid::of3(a@, b@, c@, d@, e@, f@, g@, h@, i@),
    {
        let mut top: Vec<T> = Vec::new();
        top.push(a.copy());
        top.push(b.copy());
        top.push(c.copy());
        let mut middle: Vec<T> = Vec::new();
        middle.push(d.copy());
        middle.push(e.copy());
        middle.push(f.copy());
        let mut bottom: Vec<T> = Vec::new();
        bottom.push(g.copy());
        bottom.push(h.copy());
        bottom.push(i.copy());
        let mut rows: Vec<Vec<T>> = Vec::new();
        rows.push(top);
        rows.push(middle);
        rows.push(bottom);
        let r = Matrix { rows, ncols: 3 };
        assert(r@.rows =~~= Grid::of3(a@, b@, c@, d@, e@, f@, g@, h@, i@).rows);
        r
    }

    /// The matrix of one column that holds `v`.
    pub fn column(v: &Vec<T>) -> (r: Matrix<T>)
        ensures
            r.wf(),
            r@ == Grid::column(models(v@)),
    {
        let n: usize = v.len();
        let mut rows: Vec<Vec<T>> = Vec::new();
        let mut i: usize = 0;
        while i < n
            invariant
                n == v@.len(),
                i <= n,
                rows@.len() == i,
                forall|k: int| 0 <= k < i ==> (#[trigger] rows@[k])@.len() == 1,
                forall|k: int| 0 <= k < i ==> (#[trigger] rows@[k])@[0]@ == v@[k]@,
            decreases n - i,
        {
            let mut row: Vec<T> = Vec::new();
            row.push(v[i].copy());
            rows.push(row);
            i += 1;
        }
        let r = Matrix { rows, ncols: 1 };
        assert(r@.rows =~~= Grid::column(models(v@)).rows);
        r
    }

    /// The inverse of a 2 by 2 matrix: its adjugate over its determinant,
    /// whatever the determinant is.
    pub fn inverse2(&self) -> (r: Matrix<T>)
        requires
            self.wf(),
            self@.nrows() == 2,
            self@.ncols == 2,
        ensures
            r.wf(),
            r@ == self@.inverse2(),
    {
        let det = self.rows[0][0].mul(&self.rows[1][1]).sub(&self.rows[1][0].mul(&self.rows[0][1]));
        Matrix::of2(
            &self.rows[1][1].div(&det),
            &self.rows[0][1].neg().div(&det),
            &self.rows[1][0].neg().div(&det),
            &self.rows[0][0].div(&det))
    }

    /// The inverse of a 3 by 3 matrix: its adjugate over its determinant,
    /// whatever the determinant is.
    pub fn inverse3(&self) -> (r: Matrix<T>)
        requires
            self.wf(),
            self@.nrows() == 3,
            self@.ncols == 3,
        ensures
            r.wf(),
            r@ == self@.inverse3(),
    {
        let minor0 = self.rows[1][1].mul(&self.rows[2][2]).sub(&self.rows[2][1].mul(&self.rows[1][2]));
        let minor1 = self.rows[1][0].mul(&self.rows[2][2]).sub(&self.rows[2][0].mul(&self.rows[1][2]));
        let minor2 = self.rows[1][0].mul(&self.rows[2][1]).sub(&self.rows[2][0].mul(&self.rows[1][1]));
        let det = self.rows[0][0].mul(&minor0)
            .sub(&self.rows[0][1].mul(&minor1))
            .add(&self.rows[0][2].mul(&minor2));
        Matrix::of3(
            &minor0.div(&det),
            &self.rows[0][2].mul(&self.rows[2][1]).sub(&self.rows[2][2].mul(&self.rows[0][1])).div(&det),
            &self.rows[0][1].mul(&self.rows[1][2]).sub(&self.rows[1][1].mul(&self.rows[0][2])).div(&det),
            &minor1.neg().div(&det),
            &self.rows[0][0].mul(&self.rows[2][2]).sub(&self.rows[2][0].mul(&self.rows[0][2])).div(&det),
            &self.rows[0][2].mul(&self.rows[1][0]).sub(&self.rows[1][2].mul(&self.rows[0][0])).div(&det),
            &minor2.div(&det),
            &self.rows[0][1].mul(&self.rows[2][0]).sub(&self.rows[2][1].mul(&self.rows[0][0])).div(&det),
            &self.rows[0][0].mul(&self.rows[1][1]).sub(&self.rows[1][0].mul(&self.rows[0][1])).div(&det))
    }

    /// Adds `block` onto the matrix, the block's first entry at `(r0, c0)`.
    pub fn add_block(&mut self, r0: usize, c0: usize, block: &Matrix<T>)
        requires
            old(self).wf(),
            block.wf(),
            r0 + block@.nrows() <= old(self)@.nrows(),
            c0 + block@.ncols <= old(self)@.ncols,
        ensures
            final(self).wf(),
            final(self)@ == old(self)@.add_block(r0 as int, c0 as int, block@),
    {
        let nr: usize = block.rows.len();
        let nc: usize = block.ncols;
        let height: usize = self.rows.len();
        let ghost before = self@;
        proof {
            self.lemma_view_wf();
            block.lemma_view_wf();
        }
        let mut i: usize = 0;
        while i < nr
            invariant
                self.wf(),
                block.wf(),
                before.wf(),
                block@.wf(),
                before == old(self)@,
                nr == block@.nrows(),
                nc == block@.ncols,
                height == before.nrows(),
                r0 + nr <= before.nrows(),
                c0 + nc <= before.ncols,
                self@.nrows() == before.nrows(),
                self@.ncols == before.ncols,
                i <= nr,
                forall|p: int, q: int|
                    0 <= p < before.nrows() && 0 <= q < before.ncols ==> (
                    #[trigger] self@.rows[p][q]) == (if r0 <= p < r0 + i && c0 <= q < c0 + nc {
                        before.rows[p][q].add(block@.rows[p - r0][q - c0])
                    } else {
                        before.rows[p][q]
                    }),
            decreases nr - i,
        {
            let mut j: usize = 0;
            while j < nc
                invariant
                    self.wf(),
                    block.wf(),
                    before.wf(),
                    block@.wf(),
                    nr == block@.nrows(),
                    nc == block@.ncols,
                    height == before.nrows(),
                    r0 + nr <= before.nrows(),
                    c0 + nc <= before.ncols,
                    self@.nrows() == before.nrows(),
                    self@.ncols == before.ncols,
                    i < nr,
                    j <= nc,
                    forall|p: int, q: int|
                        0 <= p < before.nrows() && 0 <= q < before.ncols ==> (
                        #[trigger] self@.rows[p][q]) == (if c0 <= q < c0 + nc && (r0 <= p < r0 + i
                            || (p == r0 + i && q < c0 + j)) {
                            before.rows[p][q].add(block@.rows[p - r0][q - c0])
                        } else {
                            before.rows[p][q]
                        }),
                decreases nc - j,
            {
                let ghost held = self@;
                proof {
                    self.lemma_view_wf();
                }
                assert(self@.rows[r0 + i][c0 + j] == before.rows[r0 + i][c0 + j]);
                assert(self@.rows[r0 + i][c0 + j] == self.rows@[r0 + i]@[c0 + j]@);
                assert(block@.rows[i as int][j as int] == block.rows@[i as int]@[j as int]@);
                let sum = self.rows[r0 + i][c0 + j].add(&block.rows[i][j]);
                self.set(r0 + i, c0 + j, sum);
                assert forall|p: int, q: int|
                    0 <= p < before.nrows() && 0 <= q < before.ncols implies (
                #[trigger] self@.rows[p][q]) == (if c0 <= q < c0 + nc && (r0 <= p < r0 + i || (p
                    == r0 + i && q < c0 + j + 1)) {
                    before.rows[p][q].add(block@.rows[p - r0][q - c0])
                } else {
                    before.rows[p][q]
                }) by {
                    assert(held.rows[p].len() == before.ncols);
                    if p == r0 + i && q == c0 + j {
                    } else {
                        assert(self@.rows[p][q] == held.rows[p][q]);
                    }
                }
                j += 1;
            }
            i += 1;
        }
        assert(self@.rows =~~= before.add_block(r0 as int, c0 as int, block@).rows);
    }

    /// The diagonal of a square matrix.
    pub fn diag(&self) -> (r: Vec<T>)
        requires
            self.wf(),
            self@.is_square(),
        ensures
            r@.len() == self@.nrows(),
            models(r@) == self@.diag(),
    {
        let n: usize = self.rows.len();
        let mut out: Vec<T> = Vec::new();
        let mut i: usize = 0;
        while i < n
            invariant
                self.wf(),
                self@.is_square(),
                n == self@.nrows(),
                i <= n,
                out@.len() == i,
                forall|k: int| 0 <= k < i ==> (#[trigger] out@[k])@ == self@.rows[k][k],
            decreases n - i,
        {
            out.push(self.rows[i][i].copy());
            i += 1;
        }
        assert(models(out@) =~= self@.diag());
        out
    }
}

} // verus!
