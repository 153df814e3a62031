//! Graphs: the factors of a problem, in the order in which they were added.

use vstd::prelude::*;
use crate::containers::factor::{Factor, FactorModel, GraphError};
use crate::containers::key::Key;
use crate::containers::values::Values;
use crate::linalg::numeric::{zero, Numeric, Scalar};
use crate::residuals::traits::Liftable;
use crate::variables::var::VarModel;

verus! {

/// The losses of the first `n` factors on the values, added up from the
/// left; the error of the first factor that cannot be evaluated, where
/// there is one.
pub open spec fn cost_sum<T: Numeric, R: Liftable<T>>(
    factors: Seq<FactorModel<T, R>>,
    values: Seq<(Key, VarModel<T::M>)>,
    n: nat,
) -> Result<T::M, GraphError>
    decreases n,
{
    if n == 0 {
        Ok(zero::<T::M>())
    } else {
        match cost_sum(factors, values, (n - 1) as nat) {
            Err(e) => Err(e),
            Ok(acc) => match factors[n - 1].cost(values) {
                Err(e) => Err(e),
                Ok(c) => Ok(acc.add(c)),
            },
        }
    }
}

/// The total error of the factors on the values: half the sum of their
/// losses.
pub open spec fn total_error<T: Numeric, R: Liftable<T>>(
    factors: Seq<FactorModel<T, R>>,
    values: Seq<(Key, VarModel<T::M>)>,
) -> Result<T::M, GraphError> {
    match cost_sum(factors, values, factors.len()) {
        Err(e) => Err(e),
        Ok(sum) => Ok(T::M::ratio(1, 2).mul(sum)),
    }
}

/// The first row of factor `i`: the dimensions of the factors before it,
/// added up.
pub open spec fn row_offset<T: Numeric, R: Liftable<T>>(factors: Seq<FactorModel<T, R>>, i: nat) -> nat
    decreases i,
{
    if i == 0 {
        0
    } else {
        row_offset(factors, (i - 1) as nat) + factors[i - 1].dim()
    }
}

/// The dimensions of all factors, added up.
pub open spec fn row_total<T: Numeric, R: Liftable<T>>(factors: Seq<FactorModel<T, R>>) -> nat {
    row_offset(factors, factors.len())
}

/// The first rows do not fall as the factors go on.
pub proof fn lemma_row_offset_monotone<T: Numeric, R: Liftable<T>>(factors: Seq<FactorModel<T, R>>, i: nat, j: nat)
    requires
        i <= j,
    ensures
        row_offset(factors, i) <= row_offset(factors, j),
    decreases j,
{
    if i < j {
        lemma_row_offset_monotone(factors, i, (j - 1) as nat);
    }
}

/// The factors of a problem. The model is the sequence of the factors'
/// models.
pub struct Graph<T, R> {
    factors: Vec<Factor<T, R>>,
}

impl<T: Numeric, R: Liftable<T>> View for Graph<T, R> {
    type V = Seq<FactorModel<T, R>>;

    closed spec fn view(&self) -> Seq<FactorModel<T, R>> {
        Seq::new(self.factors@.len(), |i: int| self.factors@[i]@)
    }
}

impl<T: Numeric, R: Liftable<T>> Graph<T, R> {
    /// Every factor is well formed.
    pub closed spec fn wf(&self) -> bool {
        forall|i: int| 0 <= i < self.factors@.len() ==> (#[trigger] self.factors@[i]).wf()
    }

    /// No factors.
    pub fn new() -> (r: Self)
        ensures
            r.wf(),
            r@ == Seq::<FactorModel<T, R>>::empty(),
    {
        let r = Graph { factors: Vec::new() };
        assert(r@ =~= Seq::<FactorModel<T, R>>::empty());
        r
    }

    /// Adds a factor at the end.
    pub fn add_factor(&mut self, factor: Factor<T, R>)
        requires
            old(self).wf(),
            factor.wf(),
        ensures
            final(self).wf(),
            final(self)@ == old(self)@.push(factor@),
    {
        self.factors.push(factor);
        assert(self@ =~= old(self)@.push(factor@));
    }

    /// The number of factors.
    pub fn len(&self) -> (r: usize)
        ensures
            r == self@.len(),
    {
        self.factors.len()
    }

    /// Factor `i`.
    pub fn factor(&self, i: usize) -> (r: &Factor<T, R>)
        requires
            self.wf(),
            i < self@.len(),
        ensures
            r.wf(),
            r@ == self@[i as int],
    {
        &self.factors[i]
    }

    /// The total error on the values: half the sum of the factors' losses.
    pub fn error(&self, values: &Values<T>) -> (r: Result<T, GraphError>)
        requires
            self.wf(),
            values.wf(),
        ensures
            r matches Ok(e) ==> total_error(self@, values@) == Ok::<T::M, GraphError>(e@),
            r matches Err(e) ==> total_error(self@, values@) == Err::<T::M, GraphError>(e),
    {
        let mut sum = T::from_ratio(0, 1);
        let mut i: usize = 0;
        while i < self.factors.len()
            invariant
                self.wf(),
                values.wf(),
                i <= self@.len(),
                cost_sum(self@, values@, i as nat) == Ok::<T::M, GraphError>(sum@),
            decreases self@.len() - i,
        {
            match self.factors[i].cost(values) {
                Err(e) => {
                    proof {
                        lemma_cost_sum_fails(self@, values@, (i + 1) as nat, self@.len());
                    }
                    return Err(e);
                },
                Ok(c) => {
                    sum = sum.add(&c);
                },
            }
            i += 1;
        }
        Ok(T::from_ratio(1, 2).mul(&sum))
    }
}

/// Once a factor cannot be evaluated, the sum fails with its error however
/// many factors follow.
pub proof fn lemma_cost_sum_fails<T: Numeric, R: Liftable<T>>(
    factors: Seq<FactorModel<T, R>>,
    values: Seq<(Key, VarModel<T::M>)>,
    n: nat,
    m: nat,
)
    requires
        n <= m,
        cost_sum(factors, values, n) is Err,
    ensures
        cost_sum(factors, values, m) == cost_sum(factors, values, n),
    decreases m,
{
    if n < m {
        lemma_cost_sum_fails(factors, values, n, (m - 1) as nat);
    }
}

} // verus!
