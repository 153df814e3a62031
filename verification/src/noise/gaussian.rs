//! Gaussian noise, held as the square root of its information matrix.

use vstd::prelude::*;
use crate::linalg::cholesky::{chol_grid, chol_inverse_model, chol_ok, cholesky, spd_inverse};
use crate::linalg::matrix::{Grid, Matrix};
use crate::linalg::numeric::{models, one, zero, Numeric, Scalar};
use crate::noise::unit::UnitNoise;

verus! {

/// The reciprocal of a standard deviation.
pub open spec fn inv_sigma<V: Scalar>(sigma: V) -> V {
    one::<V>().div(sigma)
}

/// The reciprocal of the root of a variance.
pub open spec fn inv_sqrt_cov<V: Scalar>(cov: V) -> V {
    one::<V>().div(cov.sqrt())
}

/// The diagonal that holds `first` in its first `n / 2` places and `second`
/// in the others.
pub open spec fn split_diagonal<V>(n: nat, first: V, second: V) -> Seq<V> {
    Seq::new(
        n,
        |i: int|
            if i < n / 2 {
                first
            } else {
                second
            },
    )
}

/// Why a noise model could not be built.
#[derive(Debug, Clone, Copy, PartialEq, Eq, Structural)]
pub enum NoiseError {
    /// The matrix handed in is not symmetric positive definite: its Cholesky
    /// factorisation, or that of its inverse, met a pivot that is not
    /// greater than zero.
    NotPositiveDefinite,
}

/// The inverse of a covariance, through the covariance's Cholesky factor.
pub open spec fn information_of<V: Scalar>(cov: Grid<V>) -> Grid<V> {
    chol_inverse_model(chol_grid(cov))
}

/// No entry off the diagonal of the leading `n` by `n` part differs from
/// zero.
pub open spec fn is_diagonal_model<V: Scalar>(n: nat, m: Grid<V>) -> bool {
    forall|i: int, j: int|
        0 <= i < n && 0 <= j < n && i != j ==> (#[trigger] m.rows[i][j]).equals(zero::<V>())
}

/// The first `n` entries of the diagonal all equal the first of them.
pub open spec fn is_isotropic_model<V: Scalar>(n: nat, m: Grid<V>) -> bool {
    forall|i: int| 1 <= i < n ==> (#[trigger] m.rows[i][i]).equals(m.rows[0][0])
}

/// Whether the leading `n` by `n` part of `m` is diagonal.
pub fn is_diagonal<T: Numeric>(n: usize, m: &Matrix<T>) -> (r: bool)
    requires
        m.wf(),
        n <= m@.nrows(),
        n <= m@.ncols,
    ensures
        r == is_diagonal_model(n as nat, m@),
{
    let nought = T::from_ratio(0, 1);
    let mut i: usize = 0;
    while i < n
        invariant
            m.wf(),
            n <= m@.nrows(),
            n <= m@.ncols,
            nought@ == zero::<T::M>(),
            i <= n,
            forall|p: int, q: int|
                0 <= p < i && 0 <= q < n && p != q ==> (#[trigger] m@.rows[p][q]).equals(
                    zero::<T::M>(),
                ),
        decreases n - i,
    {
        let mut j: usize = 0;
        while j < n
            invariant
                m.wf(),
                n <= m@.nrows(),
                n <= m@.ncols,
                nought@ == zero::<T::M>(),
                i < n,
                j <= n,
                forall|p: int, q: int|
                    0 <= p < i && 0 <= q < n && p != q ==> (#[trigger] m@.rows[p][q]).equals(
                        zero::<T::M>(),
                    ),
                forall|q: int|
                    0 <= q < j && i != q ==> (#[trigger] m@.rows[i as int][q]).equals(
                        zero::<T::M>(),
                    ),
            decreases n - j,
        {
            if i != j {
                let e = m.get(i, j);
                if !e.equals(&nought) {
                    assert(!m@.rows[i as int][j as int].equals(zero::<T::M>()));
                    return false;
                }
            }
            j += 1;
        }
        i += 1;
    }
    true
}

/// Whether the first `n` entries of the diagonal of `m` are all equal.
pub fn is_isotropic<T: Numeric>(n: usize, m: &Matrix<T>) -> (r: bool)
    requires
        m.wf(),
        n <= m@.nrows(),
        n <= m@.ncols,
        0 < m@.nrows(),
        0 < m@.ncols,
    ensures
        r == is_isotropic_model(n as nat, m@),
{
    let val = m.get(0, 0);
    let mut i: usize = 1;
    while i < n
        invariant
            m.wf(),
            n <= m@.nrows(),
            n <= m@.ncols,
            0 < m@.nrows(),
            0 < m@.ncols,
            val@ == m@.rows[0][0],
            1 <= i,
            forall|p: int| 1 <= p < i ==> (#[trigger] m@.rows[p][p]).equals(m@.rows[0][0]),
        decreases n - i,
    {
        let e = m.get(i, i);
        if !e.equals(&val) {
            assert(!m@.rows[i as int][i as int].equals(m@.rows[0][0]));
            return false;
        }
        i += 1;
    }
    true
}

/// How the noise is written out.
#[derive(Debug, Clone, Copy, PartialEq, Eq, Structural)]
pub enum NoiseLayout {
    /// One number: the diagonal entry that all places share.
    Isotropic,
    /// The diagonal entries, on one line.
    Diagonal,
    /// The whole matrix, one row to a line.
    Rows,
    /// The whole matrix, on one line.
    Plain,
}

/// The layout for a square-root information matrix of order `n`.
pub open spec fn layout_model<V: Scalar>(n: nat, m: Grid<V>, alternate: bool) -> NoiseLayout {
    if is_diagonal_model(n, m) {
        if is_isotropic_model(n, m) {
            NoiseLayout::Isotropic
        } else {
            NoiseLayout::Diagonal
        }
    } else if alternate {
        NoiseLayout::Rows
    } else {
        NoiseLayout::Plain
    }
}

/// Gaussian noise of dimension `N`. Its model is the square-root information
/// matrix `L`, with `L^T L` the inverse of the covariance; whitening
/// multiplies by `L` from the left.
pub struct GaussianNoise<const N: usize, T> {
    sqrt_inf: Matrix<T>,
}

impl<const N: usize, T: Numeric> View for GaussianNoise<N, T> {
    type V = Grid<T::M>;

    closed spec fn view(&self) -> Grid<T::M> {
        self.sqrt_inf@
    }
}

impl<const N: usize, T: Numeric> GaussianNoise<N, T> {
    /// The matrix is stored whole and is `N` by `N`.
    pub closed spec fn wf(&self) -> bool {
        &&& self.sqrt_inf.wf()
        &&& self.sqrt_inf@.nrows() == N
        &&& self.sqrt_inf@.ncols == N
    }

    /// The model of well-formed noise is a well-formed `N` by `N` grid.
    pub proof fn lemma_shape(&self)
        requires
            self.wf(),
        ensures
            self@.wf(),
            self@.nrows() == N,
            self@.ncols == N,
    {
        self.sqrt_inf.lemma_view_wf();
    }

    /// The unit noise of the same dimension.
    pub fn identity() -> (r: UnitNoise<N>) {
        UnitNoise::new()
    }

    /// The noise with `values` on the diagonal of its square-root information.
    fn from_diagonal_values(values: Vec<T>) -> (r: Self)
        requires
            values@.len() == N,
        ensures
            r.wf(),
            r@ == Grid::diagonal(models(values@)),
    {
        GaussianNoise { sqrt_inf: Matrix::from_diagonal(&values) }
    }

    /// Isotropic noise of standard deviation `sigma`.
    pub fn from_scalar_sigma(sigma: &T) -> (r: Self)
        ensures
            r.wf(),
            r@ == Grid::diagonal(Seq::new(N as nat, |i: int| inv_sigma(sigma@))),
    {
        let e = T::from_ratio(1, 1).div(sigma);
        Self::from_split(&e, &e)
    }

    /// Isotropic noise of variance `cov`.
    pub fn from_scalar_cov(cov: &T) -> (r: Self)
        ensures
            r.wf(),
            r@ == Grid::diagonal(Seq::new(N as nat, |i: int| inv_sqrt_cov(cov@))),
    {
        let e = T::from_ratio(1, 1).div(&cov.sqrt());
        Self::from_split(&e, &e)
    }

    /// The noise whose diagonal holds `first` in its first `N / 2` places and
    /// `second` in the others.
    fn from_split(first: &T, second: &T) -> (r: Self)
        ensures
            r.wf(),
            r@ == Grid::diagonal(split_diagonal(N as nat, first@, second@)),
            first@ == second@ ==> r@ == Grid::diagonal(Seq::new(N as nat, |i: int| first@)),
    {
        let mut values: Vec<T> = Vec::new();
        let mut i: usize = 0;
        while i < N
            invariant
                i <= N,
                values@.len() == i,
                forall|k: int|
                    0 <= k < i ==> (#[trigger] values@[k])@ == (if k < N / 2 {
                        first@
                    } else {
                        second@
                    }),
            decreases N - i,
        {
            if i < N / 2 {
                values.push(first.copy());
            } else {
                values.push(second.copy());
            }
            i += 1;
        }
        assert(models(values@) =~= split_diagonal(N as nat, first@, second@));
        proof {
            if first@ == second@ {
                assert(models(values@) =~= Seq::new(N as nat, |i: int| first@));
            }
        }
        Self::from_diagonal_values(values)
    }

    /// Noise with standard deviation `sigma1` on the first `N / 2` components
    /// and `sigma2` on the others (for a pose: rotation first).
    pub fn from_split_sigma(sigma1: &T, sigma2: &T) -> (r: Self)
        ensures
            r.wf(),
            r@ == Grid::diagonal(
                split_diagonal(N as nat, inv_sigma(sigma1@), inv_sigma(sigma2@)),
            ),
    {
        let unit = T::from_ratio(1, 1);
        let inf1 = unit.div(sigma1);
        let inf2 = unit.div(sigma2);
        Self::from_split(&inf1, &inf2)
    }

    /// Noise with variance `cov1` on the first `N / 2` components and `cov2`
    /// on the others (for a pose: rotation first).
    pub fn from_split_cov(cov1: &T, cov2: &T) -> (r: Self)
        ensures
            r.wf(),
            r@ == Grid::diagonal(
                split_diagonal(N as nat, inv_sqrt_cov(cov1@), inv_sqrt_cov(cov2@)),
            ),
    {
        let unit = T::from_ratio(1, 1);
        let inf1 = unit.div(&cov1.sqrt());
        let inf2 = unit.div(&cov2.sqrt());
        Self::from_split(&inf1, &inf2)
    }

    /// Diagonal noise from the standard deviation of each component.
    pub fn from_vec_sigma(sigma: &[T; N]) -> (r: Self)
        ensures
            r.wf(),
            r@ == Grid::diagonal(Seq::new(N as nat, |i: int| inv_sigma(sigma@[i]@))),
    {
        let unit = T::from_ratio(1, 1);
        let mut values: Vec<T> = Vec::new();
        let mut i: usize = 0;
        while i < N
            invariant
                i <= N,
                unit@ == one::<T::M>(),
                values@.len() == i,
                forall|k: int| 0 <= k < i ==> (#[trigger] values@[k])@ == inv_sigma(sigma@[k]@),
            decreases N - i,
        {
            values.push(unit.div(&sigma[i]));
            i += 1;
        }
        assert(models(values@) =~= Seq::new(N as nat, |i: int| inv_sigma(sigma@[i]@)));
        Self::from_diagonal_values(values)
    }

    /// Diagonal noise from the variance of each component.
    pub fn from_vec_cov(cov: &[T; N]) -> (r: Self)
        ensures
            r.wf(),
            r@ == Grid::diagonal(Seq::new(N as nat, |i: int| inv_sqrt_cov(cov@[i]@))),
    {
        let unit = T::from_ratio(1, 1);
        let mut values: Vec<T> = Vec::new();
        let mut i: usize = 0;
        while i < N
            invariant
                i <= N,
                unit@ == one::<T::M>(),
                values@.len() == i,
                forall|k: int| 0 <= k < i ==> (#[trigger] values@[k])@ == inv_sqrt_cov(cov@[k]@),
            decreases N - i,
        {
            values.push(unit.div(&cov[i].sqrt()));
            i += 1;
        }
        assert(models(values@) =~= Seq::new(N as nat, |i: int| inv_sqrt_cov(cov@[i]@)));
        Self::from_diagonal_values(values)
    }

    /// Diagonal noise from the information of each component.
    pub fn from_vec_inf(inf: &[T; N]) -> (r: Self)
        ensures
            r.wf(),
            r@ == Grid::diagonal(Seq::new(N as nat, |i: int| inf@[i]@.sqrt())),
    {
        let mut values: Vec<T> = Vec::new();
        let mut i: usize = 0;
        while i < N
            invariant
                i <= N,
                values@.len() == i,
                forall|k: int| 0 <= k < i ==> (#[trigger] values@[k])@ == inf@[k]@.sqrt(),
            decreases N - i,
        {
            values.push(inf[i].sqrt());
            i += 1;
        }
        assert(models(values@) =~= Seq::new(N as nat, |i: int| inf@[i]@.sqrt()));
        Self::from_diagonal_values(values)
    }

    /// Noise of covariance `cov`, a symmetric positive definite matrix: the
    /// square-root information is the transposed Cholesky factor of the
    /// inverse of `cov`.
    ///
    /// The inverse is taken through the Cholesky factor of `cov`, so only
    /// the lower triangle of `cov` is read: a matrix that is not symmetric
    /// is taken for the symmetric matrix with that lower triangle.
    pub fn from_matrix_cov(cov: &Matrix<T>) -> (r: Result<Self, NoiseError>)
        requires
            cov.wf(),
            cov@.nrows() == N,
            cov@.ncols == N,
        ensures
            r.is_ok() <==> chol_ok(cov@) && chol_ok(information_of(cov@)),
            r matches Ok(noise) ==> noise.wf() && noise@ == chol_grid(
                information_of(cov@),
            ).transpose(),
            r matches Err(e) ==> e == NoiseError::NotPositiveDefinite,
    {
        match spd_inverse(cov) {
            None => Err(NoiseError::NotPositiveDefinite),
            Some(inf) => Self::from_matrix_inf(&inf),
        }
    }

    /// Noise of information `inf`, a symmetric positive definite matrix: the
    /// square-root information is the transposed Cholesky factor of `inf`.
    /// Only the lower triangle of `inf` is read.
    pub fn from_matrix_inf(inf: &Matrix<T>) -> (r: Result<Self, NoiseError>)
        requires
            inf.wf(),
            inf@.nrows() == N,
            inf@.ncols == N,
        ensures
            r.is_ok() <==> chol_ok(inf@),
            r matches Ok(noise) ==> noise.wf() && noise@ == chol_grid(inf@).transpose(),
            r matches Err(e) ==> e == NoiseError::NotPositiveDefinite,
    {
        match cholesky(inf) {
            None => Err(NoiseError::NotPositiveDefinite),
            Some(l) => Ok(GaussianNoise { sqrt_inf: l.transpose() }),
        }
    }

    /// How the noise is written out: as one number where the matrix is
    /// diagonal with one value, as its diagonal where it is diagonal, and
    /// else as the whole matrix, row by row where `alternate` is set.
    pub fn layout(&self, alternate: bool) -> (r: NoiseLayout)
        requires
            self.wf(),
            N > 0,
        ensures
            r == layout_model(N as nat, self@, alternate),
    {
        if is_diagonal(N, &self.sqrt_inf) {
            if is_isotropic(N, &self.sqrt_inf) {
                NoiseLayout::Isotropic
            } else {
                NoiseLayout::Diagonal
            }
        } else if alternate {
            NoiseLayout::Rows
        } else {
            NoiseLayout::Plain
        }
    }

    /// The dimension.
    pub fn dim(&self) -> (r: usize)
        ensures
            r == N,
    {
        N
    }

    /// The square-root information matrix.
    pub fn sqrt_inf(&self) -> (r: &Matrix<T>)
        ensures
            r@ == self@,
            self.wf() ==> r.wf(),
    {
        &self.sqrt_inf
    }

    /// The whitened vector `L v`.
    pub fn whiten_vec(&self, v: &Vec<T>) -> (r: Vec<T>)
        requires
            self.wf(),
            v@.len() == N,
        ensures
            models(r@) == self@.mul_vec(models(v@)),
    {
        self.sqrt_inf.mul_vec(v)
    }

    /// The whitened matrix `L m`.
    pub fn whiten_mat(&self, m: &Matrix<T>) -> (r: Matrix<T>)
        requires
            self.wf(),
            m.wf(),
            m@.nrows() == N,
        ensures
            r.wf(),
            r@ == self@.matmul(m@),
    {
        self.sqrt_inf.matmul(m)
    }
}

impl<T: Numeric> GaussianNoise<1, T> {
    /// Diagonal noise from the standard deviation of each component.
    pub fn from_diag_sigmas(s0: T) -> (r: Self)
        ensures
            r.wf(),
            r@ == Grid::diagonal(seq![inv_sigma(s0@)]),
    {
        let sigmas = [s0];
        let r = Self::from_vec_sigma(&sigmas);
        assert(Seq::new(1, |i: int| inv_sigma(sigmas@[i]@)) =~= seq![inv_sigma(s0@)]);
        r
    }

    /// Diagonal noise from the variance of each component.
    pub fn from_diag_covs(s0: T) -> (r: Self)
        ensures
            r.wf(),
            r@ == Grid::diagonal(seq![inv_sqrt_cov(s0@)]),
    {
        let covs = [s0];
        let r = Self::from_vec_cov(&covs);
        assert(Seq::new(1, |i: int| inv_sqrt_cov(covs@[i]@)) =~= seq![inv_sqrt_cov(s0@)]);
        r
    }
}

impl<T: Numeric> GaussianNoise<2, T> {
    /// Diagonal noise from the standard deviation of each component.
    pub fn from_diag_sigmas(s0: T, s1: T) -> (r: Self)
        ensures
            r.wf(),
            r@ == Grid::diagonal(seq![inv_sigma(s0@), inv_sigma(s1@)]),
    {
        let sigmas = [s0, s1];
        let r = Self::from_vec_sigma(&sigmas);
        assert(Seq::new(2, |i: int| inv_sigma(sigmas@[i]@)) =~= seq![
                inv_sigma(s0@),
                inv_sigma(s1@),
            ]);
        r
    }

    /// Diagonal noise from the variance of each component.
    pub fn from_diag_covs(s0: T, s1: T) -> (r: Self)
        ensures
            r.wf(),
            r@ == Grid::diagonal(seq![inv_sqrt_cov(s0@), inv_sqrt_cov(s1@)]),
    {
        let covs = [s0, s1];
        let r = Self::from_vec_cov(&covs);
        assert(Seq::new(2, |i: int| inv_sqrt_cov(covs@[i]@)) =~= seq![
                inv_sqrt_cov(s0@),
                inv_sqrt_cov(s1@),
            ]);
        r
    }
}

impl<T: Numeric> GaussianNoise<3, T> {
    /// Diagonal noise from the standard deviation of each component.
    pub fn from_diag_sigmas(s0: T, s1: T, s2: T) -> (r: Self)
        ensures
            r.wf(),
            r@ == Grid::diagonal(seq![inv_sigma(s0@), inv_sigma(s1@), inv_sigma(s2@)]),
    {
        let sigmas = [s0, s1, s2];
        let r = Self::from_vec_sigma(&sigmas);
        assert(Seq::new(3, |i: int| inv_sigma(sigmas@[i]@)) =~= seq![
                inv_sigma(s0@),
                inv_sigma(s1@),
                inv_sigma(s2@),
            ]);
        r
    }

    /// Diagonal noise from the variance of each component.
    pub fn from_diag_covs(s0: T, s1: T, s2: T) -> (r: Self)
        ensures
            r.wf(),
            r@ == Grid::diagonal(seq![inv_sqrt_cov(s0@), inv_sqrt_cov(s1@), inv_sqrt_cov(s2@)]),
    {
        let covs = [s0, s1, s2];
        let r = Self::from_vec_cov(&covs);
        assert(Seq::new(3, |i: int| inv_sqrt_cov(covs@[i]@)) =~= seq![
                inv_sqrt_cov(s0@),
                inv_sqrt_cov(s1@),
                inv_sqrt_cov(s2@),
            ]);
        r
    }
}

impl<T: Numeric> GaussianNoise<4, T> {
    /// Diagonal noise from the standard deviation of each component.
    pub fn from_diag_sigmas(s0: T, s1: T, s2: T, s3: T) -> (r: Self)
        ensures
            r.wf(),
            r@ == Grid::diagonal(
                seq![
                    inv_sigma(s0@),
                    inv_sigma(s1@),
                    inv_sigma(s2@),
                    inv_sigma(s3@),
                ],
            ),
    {
        let sigmas = [s0, s1, s2, s3];
        let r = Self::from_vec_sigma(&sigmas);
        assert(Seq::new(4, |i: int| inv_sigma(sigmas@[i]@)) =~= seq![
                inv_sigma(s0@),
                inv_sigma(s1@),
                inv_sigma(s2@),
                inv_sigma(s3@),
            ]);
        r
    }

    /// Diagonal noise from the variance of each component.
    pub fn from_diag_covs(s0: T, s1: T, s2: T, s3: T) -> (r: Self)
        ensures
            r.wf(),
            r@ == Grid::diagonal(
                seq![
                    inv_sqrt_cov(s0@),
                    inv_sqrt_cov(s1@),
                    inv_sqrt_cov(s2@),
                    inv_sqrt_cov(s3@),
                ],
            ),
    {
        let covs = [s0, s1, s2, s3];
        let r = Self::from_vec_cov(&covs);
        assert(Seq::new(4, |i: int| inv_sqrt_cov(covs@[i]@)) =~= seq![
                inv_sqrt_cov(s0@),
                inv_sqrt_cov(s1@),
                inv_sqrt_cov(s2@),
                inv_sqrt_cov(s3@),
            ]);
        r
    }
}

impl<T: Numeric> GaussianNoise<5, T> {
    /// Diagonal noise from the standard deviation of each component.
    pub fn from_diag_sigmas(s0: T, s1: T, s2: T, s3: T, s4: T) -> (r: Self)
        ensures
            r.wf(),
            r@ == Grid::diagonal(
                seq![
                    inv_sigma(s0@),
                    inv_sigma(s1@),
                    inv_sigma(s2@),
                    inv_sigma(s3@),
                    inv_sigma(s4@),
                ],
            ),
    {
        let sigmas = [s0, s1, s2, s3, s4];
        let r = Self::from_vec_sigma(&sigmas);
        assert(Seq::new(5, |i: int| inv_sigma(sigmas@[i]@)) =~= seq![
                inv_sigma(s0@),
                inv_sigma(s1@),
                inv_sigma(s2@),
                inv_sigma(s3@),
                inv_sigma(s4@),
            ]);
        r
    }

    /// Diagonal noise from the variance of each component.
    pub fn from_diag_covs(s0: T, s1: T, s2: T, s3: T, s4: T) -> (r: Self)
        ensures
            r.wf(),
            r@ == Grid::diagonal(
                seq![
                    inv_sqrt_cov(s0@),
                    inv_sqrt_cov(s1@),
                    inv_sqrt_cov(s2@),
                    inv_sqrt_cov(s3@),
                    inv_sqrt_cov(s4@),
                ],
            ),
    {
        let covs = [s0, s1, s2, s3, s4];
        let r = Self::from_vec_cov(&covs);
        assert(Seq::new(5, |i: int| inv_sqrt_cov(covs@[i]@)) =~= seq![
                inv_sqrt_cov(s0@),
                inv_sqrt_cov(s1@),
                inv_sqrt_cov(s2@),
                inv_sqrt_cov(s3@),
                inv_sqrt_cov(s4@),
            ]);
        r
    }
}

impl<T: Numeric> GaussianNoise<6, T> {
    /// Diagonal noise from the standard deviation of each component.
    pub fn from_diag_sigmas(s0: T, s1: T, s2: T, s3: T, s4: T, s5: T) -> (r: Self)
        ensures
            r.wf(),
            r@ == Grid::diagonal(
                seq![
                    inv_sigma(s0@),
                    inv_sigma(s1@),
                    inv_sigma(s2@),
                    inv_sigma(s3@),
                    inv_sigma(s4@),
                    inv_sigma(s5@),
                ],
            ),
    {
        let sigmas = [s0, s1, s2, s3, s4, s5];
        let r = Self::from_vec_sigma(&sigmas);
        assert(Seq::new(6, |i: int| inv_sigma(sigmas@[i]@)) =~= seq![
                inv_sigma(s0@),
                inv_sigma(s1@),
                inv_sigma(s2@),
                inv_sigma(s3@),
                inv_sigma(s4@),
                inv_sigma(s5@),
            ]);
        r
    }

    /// Diagonal noise from the variance of each component.
    pub fn from_diag_covs(s0: T, s1: T, s2: T, s3: T, s4: T, s5: T) -> (r: Self)
        ensures
            r.wf(),
            r@ == Grid::diagonal(
                seq![
                    inv_sqrt_cov(s0@),
                    inv_sqrt_cov(s1@),
                    inv_sqrt_cov(s2@),
                    inv_sqrt_cov(s3@),
                    inv_sqrt_cov(s4@),
                    inv_sqrt_cov(s5@),
                ],
            ),
    {
        let covs = [s0, s1, s2, s3, s4, s5];
        let r = Self::from_vec_cov(&covs);
        assert(Seq::new(6, |i: int| inv_sqrt_cov(covs@[i]@)) =~= seq![
                inv_sqrt_cov(s0@),
                inv_sqrt_cov(s1@),
                inv_sqrt_cov(s2@),
                inv_sqrt_cov(s3@),
                inv_sqrt_cov(s4@),
                inv_sqrt_cov(s5@),
            ]);
        r
    }
}

} // verus!
