//! A noise model of either kind, of a dimension known when the program
//! runs.

use vstd::prelude::*;
use crate::linalg::dense::vcopy;
use crate::linalg::matrix::{Grid, Matrix};
use crate::linalg::numeric::{models, Numeric, Scalar};
use crate::noise::gaussian::GaussianNoise;
use crate::noise::unit::UnitNoise;

verus! {

/// The model of a noise model: unit noise of a dimension, or the
/// square-root information matrix of Gaussian noise.
pub enum NoiseKind<V> {
    Unit(nat),
    Gaussian(Grid<V>),
}

impl<V: Scalar> NoiseKind<V> {
    /// The dimension.
    pub open spec fn dim(self) -> nat {
        match self {
            NoiseKind::Unit(n) => n,
            NoiseKind::Gaussian(l) => l.nrows(),
        }
    }

    /// The whitened vector: `v` itself, or `L v`.
    pub open spec fn whiten_vec(self, v: Seq<V>) -> Seq<V> {
        match self {
            NoiseKind::Unit(_) => v,
            NoiseKind::Gaussian(l) => l.mul_vec(v),
        }
    }

    /// The whitened matrix: `m` itself, or `L m`.
    pub open spec fn whiten_mat(self, m: Grid<V>) -> Grid<V> {
        match self {
            NoiseKind::Unit(_) => m,
            NoiseKind::Gaussian(l) => l.matmul(m),
        }
    }
}

/// A noise model of either kind.
pub enum Noise<T> {
    Unit(usize),
    Gaussian(Matrix<T>),
}

impl<T: Numeric> View for Noise<T> {
    type V = NoiseKind<T::M>;

    open spec fn view(&self) -> NoiseKind<T::M> {
        match self {
            Noise::Unit(n) => NoiseKind::Unit(*n as nat),
            Noise::Gaussian(l) => NoiseKind::Gaussian(l@),
        }
    }
}

impl<T: Numeric> Noise<T> {
    /// A Gaussian model's matrix is stored whole and is square.
    pub open spec fn wf(&self) -> bool {
        match self {
            Noise::Unit(_) => true,
            Noise::Gaussian(l) => l.wf() && l@.is_square(),
        }
    }

    /// Unit noise of dimension `n`.
    pub fn unit(n: usize) -> (r: Self)
        ensures
            r.wf(),
            r@ == NoiseKind::<T::M>::Unit(n as nat),
    {
        Noise::Unit(n)
    }

    /// The unit noise model, with its dimension forgotten by the type.
    pub fn from_unit<const N: usize>(noise: UnitNoise<N>) -> (r: Self)
        ensures
            r.wf(),
            r@ == NoiseKind::<T::M>::Unit(N as nat),
    {
        Noise::Unit(N)
    }

    /// The Gaussian noise model, with its dimension forgotten by the type.
    pub fn from_gaussian<const N: usize>(noise: &GaussianNoise<N, T>) -> (r: Self)
        requires
            noise.wf(),
        ensures
            r.wf(),
            r@ == NoiseKind::Gaussian(noise@),
    {
        proof {
            noise.lemma_shape();
        }
        Noise::Gaussian(noise.sqrt_inf().copy())
    }

    /// The dimension.
    pub fn dim(&self) -> (r: usize)
        ensures
            r == self@.dim(),
    {
        match self {
            Noise::Unit(n) => *n,
            Noise::Gaussian(l) => l.nrows(),
        }
    }

    /// The whitened vector.
    pub fn whiten_vec(&self, v: &Vec<T>) -> (r: Vec<T>)
        requires
            self.wf(),
            v@.len() == self@.dim(),
        ensures
            r@.len() == v@.len(),
            models(r@) == self@.whiten_vec(models(v@)),
    {
        match self {
            Noise::Unit(_) => vcopy(v),
            Noise::Gaussian(l) => l.mul_vec(v),
        }
    }

    /// The whitened matrix.
    pub fn whiten_mat(&self, m: &Matrix<T>) -> (r: Matrix<T>)
        requires
            self.wf(),
            m.wf(),
            m@.nrows() == self@.dim(),
        ensures
            r.wf(),
            r@ == self@.whiten_mat(m@),
    {
        match self {
            Noise::Unit(_) => m.copy(),
            Noise::Gaussian(l) => l.matmul(m),
        }
    }

    /// A copy.
    pub fn copy(&self) -> (r: Self)
        requires
            self.wf(),
        ensures
            r.wf(),
            r@ == self@,
    {
        match self {
            Noise::Unit(n) => Noise::Unit(*n),
            Noise::Gaussian(l) => Noise::Gaussian(l.copy()),
        }
    }
}

} // verus!
