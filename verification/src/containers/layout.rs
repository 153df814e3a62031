//! Laws of the layout: what depends on the keys and on the kinds of the
//! variables alone.

use vstd::prelude::*;
use crate::containers::factor::{first_missing, vars_under, FactorModel, GraphError};
use crate::containers::graph::{cost_sum, total_error};
use crate::containers::key::Key;
use crate::containers::values::{distinct_keys, has_key, place_of, same_layout};
use crate::linalg::diff::var_offset;
use crate::linalg::numeric::Numeric;
use crate::residuals::residual::{lemma_lifted_accepts, CoreResidual};
use crate::residuals::traits::{Liftable, Residual};
use crate::variables::var::VarModel;

verus! {

/// Having the same layout is symmetric, and keeps the keys distinct.
pub proof fn lemma_same_layout_sym<T: Numeric>(
    a: Seq<(Key, VarModel<T::M>)>,
    b: Seq<(Key, VarModel<T::M>)>,
)
    requires
        same_layout(a, b),
    ensures
        same_layout(b, a),
        distinct_keys(a) == distinct_keys(b),
{
    assert forall|i: int| 0 <= i < b.len() implies (#[trigger] b[i]).0 == a[i].0 && b[i].1.same_kind(
        a[i].1,
    ) by {
        assert(a[i].0 == b[i].0 && a[i].1.same_kind(b[i].1));
    }
    if distinct_keys(a) {
        assert forall|i: int, j: int| 0 <= i < j < b.len() implies (#[trigger] b[i]).0 != (
        #[trigger] b[j]).0 by {
            assert(a[i].0 != a[j].0);
        }
    }
    if distinct_keys(b) {
        assert forall|i: int, j: int| 0 <= i < j < a.len() implies (#[trigger] a[i]).0 != (
        #[trigger] a[j]).0 by {
            assert(b[i].0 != b[j].0);
            assert(a[i].0 == b[i].0);
            assert(a[j].0 == b[j].0);
        }
    }
}

/// With the same layout, the same keys have variables, and at the same
/// places.
pub proof fn lemma_same_places<T: Numeric>(
    a: Seq<(Key, VarModel<T::M>)>,
    b: Seq<(Key, VarModel<T::M>)>,
    key: Key,
)
    requires
        same_layout(a, b),
        distinct_keys(a),
    ensures
        has_key(a, key) == has_key(b, key),
        has_key(a, key) ==> place_of(a, key) == place_of(b, key) && 0 <= place_of(a, key)
            < a.len() && a[place_of(a, key)].0 == key,
{
    if has_key(a, key) {
        let i = place_of(a, key);
        assert(b[i].0 == a[i].0);
        assert(has_key(b, key));
        let j = place_of(b, key);
        assert(a[j].0 == b[j].0);
        if i < j {
            assert(a[i].0 != a[j].0);
        } else if j < i {
            assert(a[j].0 != a[i].0);
        }
    } else if has_key(b, key) {
        let j = place_of(b, key);
        assert(a[j].0 == b[j].0);
    }
}

/// With the same layout, the same key is the first that is missing.
pub proof fn lemma_same_missing<T: Numeric>(
    keys: Seq<Key>,
    a: Seq<(Key, VarModel<T::M>)>,
    b: Seq<(Key, VarModel<T::M>)>,
    n: nat,
)
    requires
        same_layout(a, b),
        distinct_keys(a),
        n <= keys.len(),
    ensures
        first_missing(keys, a, n) == first_missing(keys, b, n),
    decreases n,
{
    if n > 0 {
        lemma_same_missing::<T>(keys, a, b, (n - 1) as nat);
        lemma_same_places::<T>(a, b, keys[n - 1]);
    }
}

/// Variables of the same kinds, place by place, have the same dimensions
/// together.
pub proof fn lemma_same_kinds_same_total<T: Numeric>(
    x: Seq<VarModel<T::M>>,
    y: Seq<VarModel<T::M>>,
    i: nat,
)
    requires
        x.len() == y.len(),
        i <= x.len(),
        forall|j: int| 0 <= j < x.len() ==> (#[trigger] x[j]).same_kind(y[j]),
    ensures
        var_offset(x, i) == var_offset(y, i),
    decreases i,
{
    if i > 0 {
        lemma_same_kinds_same_total::<T>(x, y, (i - 1) as nat);
        assert(x[i - 1].same_kind(y[i - 1]));
    }
}

/// For a factor of the residuals that the library provides, the layout of
/// the values decides whether the factor can be evaluated and linearised on
/// them, and with which error it cannot.
pub proof fn lemma_factor_by_layout<T: Numeric>(
    factor: FactorModel<T, CoreResidual<T>>,
    a: Seq<(Key, VarModel<T::M>)>,
    b: Seq<(Key, VarModel<T::M>)>,
)
    requires
        same_layout(a, b),
        distinct_keys(a),
    ensures
        factor.cost(a) is Ok == factor.cost(b) is Ok,
        factor.cost(a) matches Err(e) ==> factor.cost(b) == Err::<T::M, GraphError>(e),
        factor.linearize(a) is Ok == factor.linearize(b) is Ok,
        factor.linearize(a) matches Err(e) ==> factor.linearize(b) matches Err(f) && f == e,
{
    let keys = factor.keys;
    lemma_same_missing::<T>(keys, a, b, keys.len());
    if first_missing(keys, a, keys.len()) is None {
        let x = vars_under(keys, a);
        let y = vars_under(keys, b);
        assert forall|j: int| 0 <= j < keys.len() implies (#[trigger] x[j]).same_kind(y[j]) by {
            crate::containers::factor::lemma_none_missing(keys, a, keys.len(), j);
            lemma_same_places::<T>(a, b, keys[j]);
            let p = place_of(a, keys[j]);
            assert(a[p].1.same_kind(b[p].1));
        }
        let target = factor.residual@.target();
        assert(factor.residual.accepts_model(x) == factor.residual.accepts_model(y)) by {
            if factor.residual@.accepts(x) {
                assert forall|j: int| 0 <= j < y.len() implies (#[trigger] y[j]).same_kind(
                    target,
                ) by {
                    assert(x[j].same_kind(y[j]));
                    assert(x[j].same_kind(target));
                }
            }
            if factor.residual@.accepts(y) {
                assert forall|j: int| 0 <= j < x.len() implies (#[trigger] x[j]).same_kind(
                    target,
                ) by {
                    assert(x[j].same_kind(y[j]));
                    assert(y[j].same_kind(target));
                }
            }
        }
        if factor.residual.accepts_model(x) {
            lemma_same_kinds_same_total::<T>(x, y, x.len());
            lemma_lifted_accepts(factor.residual@, x);
            lemma_lifted_accepts(factor.residual@, y);
        }
    }
}

/// For a graph of the residuals that the library provides, the layout of
/// the values decides whether the total error can be taken on them, and
/// with which error it cannot.
pub proof fn lemma_total_error_by_layout<T: Numeric>(
    graph: Seq<FactorModel<T, CoreResidual<T>>>,
    a: Seq<(Key, VarModel<T::M>)>,
    b: Seq<(Key, VarModel<T::M>)>,
    n: nat,
)
    requires
        same_layout(a, b),
        distinct_keys(a),
        n <= graph.len(),
    ensures
        cost_sum(graph, a, n) is Ok == cost_sum(graph, b, n) is Ok,
        cost_sum(graph, a, n) matches Err(e) ==> cost_sum(graph, b, n) == Err::<T::M, GraphError>(
            e,
        ),
        n == graph.len() ==> (total_error(graph, a) is Ok == total_error(graph, b) is Ok),
    decreases n,
{
    if n > 0 {
        lemma_total_error_by_layout(graph, a, b, (n - 1) as nat);
        lemma_factor_by_layout(graph[n - 1], a, b);
    }
}

} // verus!
