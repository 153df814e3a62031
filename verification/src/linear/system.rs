//! The Jacobian and the error of all factors, laid out by the order of the
//! variables and of the factors, and the step that they give.

use vstd::prelude::*;
use crate::containers::factor::{FactorModel, GraphError, Linearization, LinearModel};
use crate::containers::graph::{lemma_row_offset_monotone, row_offset, row_total, Graph};
use crate::containers::key::Key;
use crate::containers::layout::lemma_factor_by_layout;
use crate::containers::values::{
    distinct_keys, has_key, lemma_offset_monotone, offset_model, place_of, same_layout, total_dim,
    Values,
};
use crate::linalg::cholesky::{
    chol_grid, chol_ok, chol_solve_model, cholesky, solve_lower, solve_lower_transposed,
};
use crate::linalg::dense::{
    norm_squared, norm_squared_model, vadd, vadd_model, vneg, vneg_model, vzeros, zeros_model,
};
use crate::linalg::matrix::{Grid, Matrix};
use crate::linalg::numeric::{models, Numeric, Scalar};
use crate::residuals::residual::CoreResidual;
use crate::residuals::traits::Liftable;
use crate::variables::var::VarModel;

verus! {

/// The model of a linear system: the Jacobian `J` and the error `e` of the
/// problem `min |J delta + e|^2`.
pub struct SystemModel<V> {
    pub jacobian: Grid<V>,
    pub error: Seq<V>,
}

/// The first column of the variable under `key`.
pub open spec fn column_of<V: Scalar>(values: Seq<(Key, VarModel<V>)>, key: Key) -> nat {
    offset_model(values, place_of(values, key) as nat)
}

/// The Jacobian with the first `m` blocks of a factor added onto it: block
/// `j` at the factor's first row and at the first column of the variable
/// under key `j`.
pub open spec fn scatter<V: Scalar>(
    jacobian: Grid<V>,
    row: int,
    keys: Seq<Key>,
    blocks: Seq<Grid<V>>,
    values: Seq<(Key, VarModel<V>)>,
    m: nat,
) -> Grid<V>
    decreases m,
{
    if m == 0 {
        jacobian
    } else {
        scatter(jacobian, row, keys, blocks, values, (m - 1) as nat).add_block(
            row,
            column_of(values, keys[m - 1]) as int,
            blocks[m - 1],
        )
    }
}

/// `error` with `part` written over it from place `row` on.
pub open spec fn overwrite<V>(error: Seq<V>, row: int, part: Seq<V>) -> Seq<V> {
    Seq::new(
        error.len(),
        |i: int|
            if row <= i < row + part.len() {
                part[i - row]
            } else {
                error[i]
            },
    )
}

impl<V: Scalar> SystemModel<V> {
    /// The system of the given height and width that holds nothing yet.
    pub open spec fn empty(height: nat, width: nat) -> Self {
        SystemModel { jacobian: Grid::zeros(height, width), error: zeros_model(height) }
    }

    /// The system with a factor's linearisation written into the factor's
    /// rows.
    pub open spec fn with_factor(
        self,
        row: int,
        keys: Seq<Key>,
        lin: LinearModel<V>,
        values: Seq<(Key, VarModel<V>)>,
    ) -> Self {
        SystemModel {
            jacobian: scatter(self.jacobian, row, keys, lin.blocks, values, keys.len()),
            error: overwrite(self.error, row, lin.error),
        }
    }

    /// The matrix `J^T J` of the normal equations.
    pub open spec fn normal(self) -> Grid<V> {
        self.jacobian.transpose().matmul(self.jacobian)
    }

    /// The gradient `J^T e`.
    pub open spec fn gradient(self) -> Seq<V> {
        self.jacobian.transpose().mul_vec(self.error)
    }

    /// The matrix that is solved with: `J^T J`, and with a damping `lambda`
    /// the matrix `J^T J + lambda D`, where `D` is the diagonal of `J^T J`.
    pub open spec fn damped(self, damping: Option<V>) -> Grid<V> {
        match damping {
            None => self.normal(),
            Some(lambda) => self.normal().add(
                Grid::diagonal(self.normal().diag()).scale(lambda),
            ),
        }
    }

    /// The step `delta` with `(J^T J + lambda D) delta = -J^T e`, by the
    /// Cholesky factorisation of the matrix, where that exists.
    pub open spec fn solve(self, damping: Option<V>) -> Option<Seq<V>> {
        if chol_ok(self.damped(damping)) {
            Some(chol_solve_model(chol_grid(self.damped(damping)), vneg_model(self.gradient())))
        } else {
            None
        }
    }

    /// The error of the linear model before any step: a quarter of
    /// `|e|^2`.
    pub open spec fn error_now(self) -> V {
        V::ratio(1, 2).mul(norm_squared_model(self.error).div(V::ratio(2, 1)))
    }

    /// The error that the linear model foretells after the step `delta`:
    /// a quarter of `|J delta + e|^2`.
    pub open spec fn error_after(self, delta: Seq<V>) -> V {
        V::ratio(1, 2).mul(
            norm_squared_model(vadd_model(self.jacobian.mul_vec(delta), self.error)).div(
                V::ratio(2, 1),
            ),
        )
    }
}

/// The system of the first `n` factors of a graph on the values; the error
/// of the first factor that cannot be linearised, where there is one.
pub open spec fn assemble<T: Numeric, R: Liftable<T>>(
    factors: Seq<FactorModel<T, R>>,
    values: Seq<(Key, VarModel<T::M>)>,
    n: nat,
) -> Result<SystemModel<T::M>, GraphError>
    decreases n,
{
    if n == 0 {
        Ok(SystemModel::empty(row_total(factors), total_dim(values)))
    } else {
        match assemble(factors, values, (n - 1) as nat) {
            Err(e) => Err(e),
            Ok(sys) => match factors[n - 1].linearize(values) {
                Err(e) => Err(e),
                Ok(lin) => Ok(
                    sys.with_factor(
                        row_offset(factors, (n - 1) as nat) as int,
                        factors[n - 1].keys,
                        lin,
                        values,
                    ),
                ),
            },
        }
    }
}

/// The system of a graph on the values.
pub open spec fn linearize_model<T: Numeric, R: Liftable<T>>(
    factors: Seq<FactorModel<T, R>>,
    values: Seq<(Key, VarModel<T::M>)>,
) -> Result<SystemModel<T::M>, GraphError> {
    assemble(factors, values, factors.len())
}

/// Once a factor cannot be linearised, the system fails with its error however many
/// factors follow.
pub proof fn lemma_assemble_fails<T: Numeric, R: Liftable<T>>(
    factors: Seq<FactorModel<T, R>>,
    values: Seq<(Key, VarModel<T::M>)>,
    n: nat,
    m: nat,
)
    requires
        n <= m,
        assemble(factors, values, n) is Err,
    ensures
        assemble(factors, values, m) == assemble(factors, values, n),
    decreases m,
{
    if n < m {
        lemma_assemble_fails(factors, values, n, (m - 1) as nat);
    }
}

/// For a graph of the residuals that the library provides, the layout of
/// the values decides whether the linear system can be set up on them,
/// and with which error it cannot.
pub proof fn lemma_assemble_by_layout<T: Numeric>(
    graph: Seq<FactorModel<T, CoreResidual<T>>>,
    a: Seq<(Key, VarModel<T::M>)>,
    b: Seq<(Key, VarModel<T::M>)>,
    n: nat,
)
    requires
        same_layout(a, b),
        distinct_keys(a),
        n <= graph.len(),
    ensures
        assemble(graph, a, n) is Ok == assemble(graph, b, n) is Ok,
        assemble(graph, a, n) matches Err(e) ==> assemble(graph, b, n) matches Err(f) && f == e,
    decreases n,
{
    if n > 0 {
        lemma_assemble_by_layout(graph, a, b, (n - 1) as nat);
        lemma_factor_by_layout(graph[n - 1], a, b);
    }
}

/// A linear system.
pub struct LinearSystem<T> {
    jacobian: Matrix<T>,
    error: Vec<T>,
}

impl<T: Numeric> View for LinearSystem<T> {
    type V = SystemModel<T::M>;

    closed spec fn view(&self) -> SystemModel<T::M> {
        SystemModel { jacobian: self.jacobian@, error: models(self.error@) }
    }
}

impl<T: Numeric> LinearSystem<T> {
    /// The Jacobian is stored whole and has a row for each entry of the
    /// error.
    pub closed spec fn wf(&self) -> bool {
        &&& self.jacobian.wf()
        &&& self.jacobian@.nrows() == self.error@.len()
    }

    /// The system of the given Jacobian and error.
    pub fn new(jacobian: Matrix<T>, error: Vec<T>) -> (r: Self)
        requires
            jacobian.wf(),
            jacobian@.nrows() == error@.len(),
        ensures
            r.wf(),
            r@ == (SystemModel { jacobian: jacobian@, error: models(error@) }),
    {
        LinearSystem { jacobian, error }
    }

    /// The Jacobian.
    pub fn jacobian(&self) -> (r: &Matrix<T>)
        requires
            self.wf(),
        ensures
            r.wf(),
            r@ == self@.jacobian,
    {
        &self.jacobian
    }

    /// The error.
    pub fn error(&self) -> (r: &Vec<T>)
        ensures
            models(r@) == self@.error,
    {
        &self.error
    }

    /// The number of columns: the dimensions of all variables together.
    pub fn width(&self) -> (r: usize)
        ensures
            r == self@.jacobian.ncols,
    {
        self.jacobian.ncols()
    }

    /// The step of the system, with or without damping; `None` where the
    /// matrix of the normal equations has no Cholesky factorisation.
    pub fn solve(&self, damping: Option<&T>) -> (r: Option<Vec<T>>)
        requires
            self.wf(),
        ensures
            r matches Some(delta) ==> self@.solve(
                match damping {
                    Some(l) => Some(l@),
                    None => None,
                },
            ) == Some(models(delta@)) && delta@.len() == self@.jacobian.ncols,
            r is None ==> self@.solve(
                match damping {
                    Some(l) => Some(l@),
                    None => None,
                },
            ) is None,
    {
        let jt = self.jacobian.transpose();
        let normal = jt.matmul(&self.jacobian);
        let gradient = jt.mul_vec(&self.error);
        let a = match damping {
            None => normal,
            Some(lambda) => {
                let d = Matrix::from_diagonal(&normal.diag());
                normal.add(&d.scale(lambda))
            },
        };
        match cholesky(&a) {
            None => None,
            Some(l) => {
                let rhs = vneg(&gradient);
                let y = solve_lower(&l, &rhs);
                let delta = solve_lower_transposed(&l, &y);
                Some(delta)
            },
        }
    }

    /// The error of the linear model before any step.
    pub fn error_now(&self) -> (r: T)
        ensures
            r@ == self@.error_now(),
    {
        T::from_ratio(1, 2).mul(&norm_squared(&self.error).div(&T::from_ratio(2, 1)))
    }

    /// The error that the linear model foretells after the step `delta`.
    pub fn error_after(&self, delta: &Vec<T>) -> (r: T)
        requires
            self.wf(),
            delta@.len() == self@.jacobian.ncols,
        ensures
            r@ == self@.error_after(models(delta@)),
    {
        let moved = vadd(&self.jacobian.mul_vec(delta), &self.error);
        T::from_ratio(1, 2).mul(&norm_squared(&moved).div(&T::from_ratio(2, 1)))
    }
}

/// The first column of every variable, in the order of the variables.
fn column_offsets<T: Numeric>(values: &Values<T>) -> (offsets: Vec<usize>)
    requires
        values.wf(),
        total_dim(values@) <= usize::MAX,
    ensures
        offsets@.len() == values@.len(),
        forall|q: int|
            0 <= q < values@.len() ==> (#[trigger] offsets@[q]) == offset_model(values@, q as nat),
{
    let count: usize = values.len();
    let mut offsets: Vec<usize> = Vec::new();
    let mut off: usize = 0;
    let mut p: usize = 0;
    while p < count
        invariant
            values.wf(),
            count == values@.len(),
            total_dim(values@) <= usize::MAX,
            p <= count,
            off == offset_model(values@, p as nat),
            offsets@.len() == p,
            forall|q: int| 0 <= q < p ==> (#[trigger] offsets@[q]) == offset_model(values@, q as nat),
        decreases count - p,
    {
        proof {
            lemma_offset_monotone(values@, (p + 1) as nat, count as nat);
        }
        offsets.push(off);
        off = off + values.var_at(p).dim();
        p += 1;
    }
    offsets
}

/// The number of rows: the dimensions of all factors together.
fn row_count<T: Numeric, R: Liftable<T>>(graph: &Graph<T, R>) -> (height: usize)
    requires
        graph.wf(),
        row_total(graph@) <= usize::MAX,
    ensures
        height == row_total(graph@),
{
    let n: usize = graph.len();
    let mut height: usize = 0;
    let mut i: usize = 0;
    while i < n
        invariant
            graph.wf(),
            n == graph@.len(),
            row_total(graph@) <= usize::MAX,
            i <= n,
            height == row_offset(graph@, i as nat),
        decreases n - i,
    {
        proof {
            lemma_row_offset_monotone(graph@, (i + 1) as nat, n as nat);
        }
        height = height + graph.factor(i).dim();
        i += 1;
    }
    height
}

/// Every key has a variable, and every block has the columns of the
/// variable under its key and fits into `height` rows from `row` on.
pub open spec fn blocks_fit<V: Scalar>(
    keys: Seq<Key>,
    blocks: Seq<Grid<V>>,
    values: Seq<(Key, VarModel<V>)>,
    row: int,
    height: nat,
) -> bool {
    &&& blocks.len() == keys.len()
    &&& forall|c: int|
        0 <= c < keys.len() ==> has_key(values, #[trigger] keys[c]) && row + blocks[c].nrows()
            <= height && blocks[c].ncols == values[place_of(values, keys[c])].1.dim()
}

/// Adds the blocks of a factor's linearisation onto the Jacobian, from the
/// row `row` on.
fn scatter_blocks<T: Numeric>(
    jac: &mut Matrix<T>,
    row: usize,
    keys: &Vec<Key>,
    lin: &Linearization<T>,
    values: &Values<T>,
    offsets: &Vec<usize>,
)
    requires
        old(jac).wf(),
        values.wf(),
        lin.wf(),
        old(jac)@.ncols == total_dim(values@),
        offsets@.len() == values@.len(),
        forall|q: int|
            0 <= q < values@.len() ==> (#[trigger] offsets@[q]) == offset_model(values@, q as nat),
        blocks_fit(keys@, lin@.blocks, values@, row as int, old(jac)@.nrows()),
    ensures
        final(jac).wf(),
        final(jac)@.nrows() == old(jac)@.nrows(),
        final(jac)@.ncols == old(jac)@.ncols,
        final(jac)@ == scatter(old(jac)@, row as int, keys@, lin@.blocks, values@, keys@.len()),
{
    let ghost start = jac@;
    let count: usize = values.len();
    let mut j: usize = 0;
    while j < keys.len()
        invariant
            values.wf(),
            lin.wf(),
            count == values@.len(),
            start.ncols == total_dim(values@),
            offsets@.len() == count,
            forall|q: int|
                0 <= q < count ==> (#[trigger] offsets@[q]) == offset_model(values@, q as nat),
            blocks_fit(keys@, lin@.blocks, values@, row as int, start.nrows()),
            jac.wf(),
            jac@.nrows() == start.nrows(),
            jac@.ncols == start.ncols,
            j <= keys@.len(),
            jac@ == scatter(start, row as int, keys@, lin@.blocks, values@, j as nat),
        decreases keys@.len() - j,
    {
        let key = keys[j];
        assert(has_key(values@, keys@[j as int]));
        assert(lin@.blocks[j as int] == lin.blocks@[j as int]@);
        assert(lin.blocks@[j as int].wf());
        match values.position(&key) {
            None => {},
            Some(pos) => {
                proof {
                    values.lemma_distinct();
                    assert(values@[pos as int].0 == key);
                    assert(place_of(values@, key) == pos);
                    lemma_offset_monotone(values@, (pos + 1) as nat, count as nat);
                    assert(lin@.blocks[j as int] == lin.blocks@[j as int]@);
                }
                let col: usize = offsets[pos];
                jac.add_block(row, col, &lin.blocks[j]);
            },
        }
        j += 1;
    }
}

/// Writes `part` over the error, from the place `row` on.
fn write_error<T: Numeric>(err: &mut Vec<T>, row: usize, part: &Vec<T>)
    requires
        row + part@.len() <= old(err)@.len(),
    ensures
        final(err)@.len() == old(err)@.len(),
        models(final(err)@) == overwrite(models(old(err)@), row as int, models(part@)),
{
    let ghost held = models(err@);
    let k: usize = part.len();
    let height: usize = err.len();
    let mut t: usize = 0;
    while t < k
        invariant
            k == part@.len(),
            row + k <= height,
            err@.len() == height,
            t <= k,
            held.len() == height,
            forall|q: int|
                0 <= q < height ==> (#[trigger] err@[q])@ == (if row <= q < row + t {
                    part@[q - row]@
                } else {
                    held[q]
                }),
        decreases k - t,
    {
        err[row + t] = part[t].copy();
        t += 1;
    }
    assert(models(err@) =~= overwrite(held, row as int, models(part@)));
}

/// The linear system of a graph on the values: factor `i` fills the rows
/// from the dimensions of the factors before it on, and the variable at
/// place `p` has the columns from the dimensions of the variables before it
/// on.
pub fn linearize<T: Numeric, R: Liftable<T>>(graph: &Graph<T, R>, values: &Values<T>) -> (r: Result<
    LinearSystem<T>,
    GraphError,
>)
    requires
        graph.wf(),
        values.wf(),
        row_total(graph@) <= usize::MAX,
        total_dim(values@) <= usize::MAX,
    ensures
        r matches Ok(sys) ==> sys.wf() && linearize_model(graph@, values@) == Ok::<
            SystemModel<T::M>,
            GraphError,
        >(sys@) && sys@.jacobian.ncols == total_dim(values@) && sys@.jacobian.nrows() == row_total(
            graph@,
        ),
        r matches Err(e) ==> linearize_model(graph@, values@) == Err::<
            SystemModel<T::M>,
            GraphError,
        >(e),
{
    let n: usize = graph.len();
    let height: usize = row_count(graph);
    let width: usize = values.dim();
    let offsets = column_offsets(values);
    let mut jac: Matrix<T> = Matrix::zeros(height, width);
    let mut err: Vec<T> = vzeros(height);
    let mut row: usize = 0;
    let mut i: usize = 0;
    while i < n
        invariant
            graph.wf(),
            values.wf(),
            n == graph@.len(),
            height == row_total(graph@),
            width == total_dim(values@),
            offsets@.len() == values@.len(),
            forall|q: int|
                0 <= q < values@.len() ==> (#[trigger] offsets@[q]) == offset_model(
                    values@,
                    q as nat,
                ),
            i <= n,
            row == row_offset(graph@, i as nat),
            jac.wf(),
            jac@.nrows() == height,
            jac@.ncols == width,
            err@.len() == height,
            assemble(graph@, values@, i as nat) == Ok::<SystemModel<T::M>, GraphError>(
                SystemModel { jacobian: jac@, error: models(err@) },
            ),
        decreases n - i,
    {
        proof {
            lemma_row_offset_monotone(graph@, (i + 1) as nat, n as nat);
        }
        let factor = graph.factor(i);
        match factor.linearize(values) {
            Err(e) => {
                proof {
                    lemma_assemble_fails(graph@, values@, (i + 1) as nat, n as nat);
                }
                return Err(e);
            },
            Ok(lin) => {
                let k: usize = factor.dim();
                proof {
                    assert forall|c: int| 0 <= c < factor@.keys.len() implies has_key(
                        values@,
                        #[trigger] factor@.keys[c],
                    ) && row + lin@.blocks[c].nrows() <= height && lin@.blocks[c].ncols
                        == values@[place_of(values@, factor@.keys[c])].1.dim() by {
                        assert(lin@.blocks[c] == lin.blocks@[c]@);
                    }
                }
                scatter_blocks(&mut jac, row, factor.keys(), &lin, values, &offsets);
                write_error(&mut err, row, &lin.error);
                row = row + k;
            },
        }
        i += 1;
    }
    Ok(LinearSystem::new(jac, err))
}

} // verus!
