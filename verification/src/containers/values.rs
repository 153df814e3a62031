//! The variables of a problem, each under its key, in the order in which
//! they were inserted.

use std::collections::HashMap;
use vstd::prelude::*;
use crate::containers::key::Key;
use crate::linalg::dense::slice_copy;
use crate::linalg::numeric::{models, Numeric, Scalar};
use crate::variables::var::{lemma_oplus_same_kind, Var, VarModel};

verus! {

/// The place of `key` among the entries, where it has one.
pub open spec fn has_key<X>(entries: Seq<(Key, X)>, key: Key) -> bool {
    exists|i: int| 0 <= i < entries.len() && (#[trigger] entries[i]).0 == key
}

/// No key stands twice among the entries.
pub open spec fn distinct_keys<X>(entries: Seq<(Key, X)>) -> bool {
    forall|i: int, j: int|
        0 <= i < j < entries.len() ==> (#[trigger] entries[i]).0 != (#[trigger] entries[j]).0
}

/// The place of `key` among the entries.
pub open spec fn place_of<X>(entries: Seq<(Key, X)>, key: Key) -> int {
    choose|i: int| 0 <= i < entries.len() && (#[trigger] entries[i]).0 == key
}

/// The first column of entry `i`: the dimensions of the entries before it,
/// added up.
pub open spec fn offset_model<V: Scalar>(entries: Seq<(Key, VarModel<V>)>, i: nat) -> nat
    decreases i,
{
    if i == 0 {
        0
    } else {
        offset_model(entries, (i - 1) as nat) + entries[i - 1].1.dim()
    }
}

/// The dimensions of all entries, added up.
pub open spec fn total_dim<V: Scalar>(entries: Seq<(Key, VarModel<V>)>) -> nat {
    offset_model(entries, entries.len())
}

/// Every entry with its part of `delta` retracted onto it: entry `i` takes
/// the `dim` entries of `delta` from its first column on.
pub open spec fn retract_model<V: Scalar>(
    entries: Seq<(Key, VarModel<V>)>,
    delta: Seq<V>,
) -> Seq<(Key, VarModel<V>)> {
    Seq::new(
        entries.len(),
        |i: int|
            (
                entries[i].0,
                entries[i].1.oplus(
                    delta.subrange(
                        offset_model(entries, i as nat) as int,
                        (offset_model(entries, i as nat) + entries[i].1.dim()) as int,
                    ),
                ),
            ),
    )
}

/// The first columns do not fall as the variables go on.
pub proof fn lemma_offset_monotone<V: Scalar>(entries: Seq<(Key, VarModel<V>)>, i: nat, j: nat)
    requires
        i <= j,
    ensures
        offset_model(entries, i) <= offset_model(entries, j),
    decreases j,
{
    if i < j {
        lemma_offset_monotone(entries, i, (j - 1) as nat);
    }
}

/// The columns of two variables do not overlap: those of the earlier one
/// end where, or before, those of the later one begin, and all end within
/// the total.
pub proof fn lemma_columns_disjoint<V: Scalar>(entries: Seq<(Key, VarModel<V>)>, i: nat, j: nat)
    requires
        i < j < entries.len(),
    ensures
        offset_model(entries, i) + entries[i as int].1.dim() <= offset_model(entries, j),
        offset_model(entries, j) + entries[j as int].1.dim() <= total_dim(entries),
{
    lemma_offset_monotone(entries, i + 1, j);
    lemma_offset_monotone(entries, j + 1, entries.len());
}

/// Both sequences hold the same keys in the same order, and under each key
/// variables of one kind.
pub open spec fn same_layout<V: Scalar>(
    a: Seq<(Key, VarModel<V>)>,
    b: Seq<(Key, VarModel<V>)>,
) -> bool {
    &&& a.len() == b.len()
    &&& forall|i: int| 0 <= i < a.len() ==> (#[trigger] a[i]).0 == b[i].0 && a[i].1.same_kind(b[i].1)
}

/// Having the same layout is transitive.
pub proof fn lemma_same_layout_trans<V: Scalar>(
    a: Seq<(Key, VarModel<V>)>,
    b: Seq<(Key, VarModel<V>)>,
    c: Seq<(Key, VarModel<V>)>,
)
    requires
        same_layout(a, b),
        same_layout(b, c),
    ensures
        same_layout(a, c),
{
    assert forall|i: int| 0 <= i < a.len() implies (#[trigger] a[i]).0 == c[i].0 && a[i].1.same_kind(
        c[i].1,
    ) by {
        assert(a[i].0 == b[i].0 && a[i].1.same_kind(b[i].1));
        assert(b[i].0 == c[i].0 && b[i].1.same_kind(c[i].1));
    }
}

/// A retraction leaves the layout as it is.
pub proof fn lemma_retract_same_layout<V: Scalar>(entries: Seq<(Key, VarModel<V>)>, delta: Seq<V>)
    ensures
        same_layout(retract_model(entries, delta), entries),
{
    lemma_retract_layout(entries, delta, 0);
}

/// A retraction leaves the keys and the dimensions as they are, and with
/// them every first column.
pub proof fn lemma_retract_layout<V: Scalar>(
    entries: Seq<(Key, VarModel<V>)>,
    delta: Seq<V>,
    i: nat,
)
    requires
        i <= entries.len(),
    ensures
        retract_model(entries, delta).len() == entries.len(),
        offset_model(retract_model(entries, delta), i) == offset_model(entries, i),
        forall|j: int|
            0 <= j < entries.len() ==> (#[trigger] retract_model(entries, delta)[j]).0
                == entries[j].0 && retract_model(entries, delta)[j].1.same_kind(entries[j].1),
    decreases i,
{
    assert forall|j: int| 0 <= j < entries.len() implies (#[trigger] retract_model(
        entries,
        delta,
    )[j]).0 == entries[j].0 && retract_model(entries, delta)[j].1.same_kind(entries[j].1) by {
        lemma_oplus_same_kind(
            entries[j].1,
            delta.subrange(
                offset_model(entries, j as nat) as int,
                (offset_model(entries, j as nat) + entries[j].1.dim()) as int,
            ),
        );
    }
    if i > 0 {
        lemma_retract_layout(entries, delta, (i - 1) as nat);
        lemma_oplus_same_kind(
            entries[i - 1].1,
            delta.subrange(
                offset_model(entries, (i - 1) as nat) as int,
                (offset_model(entries, (i - 1) as nat) + entries[i - 1].1.dim()) as int,
            ),
        );
    }
}

/// The variables of a problem. The model is the sequence of keys and
/// variables, in the order of insertion.
pub struct Values<T> {
    keys: Vec<Key>,
    vars: Vec<Var<T>>,
    index: HashMap<u128, usize>,
}

impl<T: Numeric> View for Values<T> {
    type V = Seq<(Key, VarModel<T::M>)>;

    closed spec fn view(&self) -> Seq<(Key, VarModel<T::M>)> {
        Seq::new(self.keys@.len(), |i: int| (self.keys@[i], self.vars@[i]@))
    }
}

impl<T: Numeric> Values<T> {
    /// The index knows the place of every key, and nothing else.
    pub closed spec fn wf(&self) -> bool {
        &&& self.keys@.len() == self.vars@.len()
        &&& forall|i: int|
            0 <= i < self.keys@.len() ==> self.index@.contains_key(
                (#[trigger] self.keys@[i]).code_model() as u128,
            ) && self.index@[self.keys@[i].code_model() as u128] == i
        &&& forall|c: u128| #[trigger]
            self.index@.contains_key(c) ==> self.index@[c] < self.keys@.len()
                && self.keys@[self.index@[c] as int].code_model() == c
    }

    /// In well-formed values no key stands twice.
    pub proof fn lemma_distinct(&self)
        requires
            self.wf(),
        ensures
            distinct_keys(self@),
    {
        assert forall|i: int, j: int| 0 <= i < j < self@.len() implies (#[trigger] self@[i]).0 != (
        #[trigger] self@[j]).0 by {
            if self@[i].0 == self@[j].0 {
                assert(self.index@[self.keys@[i].code_model() as u128] == i);
                assert(self.index@[self.keys@[j].code_model() as u128] == j);
            }
        }
    }

    /// No variables.
    pub fn new() -> (r: Self)
        ensures
            r.wf(),
            r@ == Seq::<(Key, VarModel<T::M>)>::empty(),
    {
        broadcast use vstd::std_specs::hash::group_hash_axioms;

        let r = Values { keys: Vec::new(), vars: Vec::new(), index: HashMap::new() };
        assert(r@ =~= Seq::<(Key, VarModel<T::M>)>::empty());
        r
    }

    /// The number of variables.
    pub fn len(&self) -> (r: usize)
        ensures
            r == self@.len(),
    {
        self.keys.len()
    }

    /// The place of `key`, where it has one.
    pub fn position(&self, key: &Key) -> (r: Option<usize>)
        requires
            self.wf(),
        ensures
            r.is_some() <==> has_key(self@, *key),
            r matches Some(i) ==> i < self@.len() && self@[i as int].0 == *key,
    {
        broadcast use vstd::std_specs::hash::group_hash_axioms;

        let code = key.code();
        match self.index.get(&code) {
            Some(i) => {
                proof {
                    Key::lemma_code_injective(self.keys@[*i as int], *key);
                    assert(self@[*i as int].0 == *key);
                }
                Some(*i)
            },
            None => {
                assert forall|i: int| 0 <= i < self@.len() implies (#[trigger] self@[i]).0
                    != *key by {
                    assert(self.index@.contains_key(self.keys@[i].code_model() as u128));
                }
                None
            },
        }
    }

    /// Whether a variable stands under `key`.
    pub fn contains(&self, key: &Key) -> (r: bool)
        requires
            self.wf(),
        ensures
            r == has_key(self@, *key),
    {
        self.position(key).is_some()
    }

    /// The variable under `key`, where there is one.
    pub fn get(&self, key: &Key) -> (r: Option<&Var<T>>)
        requires
            self.wf(),
        ensures
            r.is_some() <==> has_key(self@, *key),
            r matches Some(v) ==> v@ == self@[place_of(self@, *key)].1,
    {
        match self.position(key) {
            Some(i) => {
                proof {
                    self.lemma_distinct();
                    let p = place_of(self@, *key);
                    assert(self@[i as int].0 == *key);
                    assert(p == i);
                }
                Some(&self.vars[i])
            },
            None => None,
        }
    }

    /// The key at place `i`.
    pub fn key_at(&self, i: usize) -> (r: Key)
        requires
            i < self@.len(),
        ensures
            r == self@[i as int].0,
    {
        self.keys[i]
    }

    /// The variable at place `i`.
    pub fn var_at(&self, i: usize) -> (r: &Var<T>)
        requires
            self.wf(),
            i < self@.len(),
        ensures
            r@ == self@[i as int].1,
    {
        &self.vars[i]
    }

    /// Puts `var` under `key`: at the end where the key is new, and else in
    /// the place of the variable that stood under it, which is returned.
    pub fn insert(&mut self, key: Key, var: Var<T>) -> (r: Option<Var<T>>)
        requires
            old(self).wf(),
        ensures
            final(self).wf(),
            r.is_some() <==> has_key(old(self)@, key),
            r is None ==> final(self)@ == old(self)@.push((key, var@)),
            r matches Some(v) ==> v@ == old(self)@[place_of(old(self)@, key)].1 && final(self)@
                == old(self)@.update(place_of(old(self)@, key), (key, var@)),
    {
        broadcast use vstd::std_specs::hash::group_hash_axioms;

        match self.position(&key) {
            Some(i) => {
                proof {
                    self.lemma_distinct();
                    assert(self@[i as int].0 == key);
                    assert(place_of(self@, key) == i);
                }
                let ghost before = self@;
                let mut slot = var;
                let held = &mut self.vars[i];
                std::mem::swap(held, &mut slot);
                assert(self@ =~= before.update(i as int, (key, var@)));
                Some(slot)
            },
            None => {
                let ghost before = self@;
                let n: usize = self.keys.len();
                let code = key.code();
                self.keys.push(key);
                self.vars.push(var);
                self.index.insert(code, n);
                assert(self@ =~= before.push((key, var@)));
                proof {
                    assert forall|i: int| 0 <= i < self.keys@.len() implies self.index@.contains_key(
                        (#[trigger] self.keys@[i]).code_model() as u128,
                    ) && self.index@[self.keys@[i].code_model() as u128] == i by {
                        if i < n {
                            assert(before[i].0 != key);
                            if self.keys@[i].code_model() == key.code_model() {
                                Key::lemma_code_injective(self.keys@[i], key);
                            }
                        }
                    }
                }
                None
            },
        }
    }

    /// A copy of the values.
    pub fn copy(&self) -> (r: Self)
        requires
            self.wf(),
        ensures
            r.wf(),
            r@ == self@,
    {
        let mut out = Values::new();
        let mut i: usize = 0;
        while i < self.keys.len()
            invariant
                self.wf(),
                out.wf(),
                i <= self@.len(),
                out@ == self@.subrange(0, i as int),
            decreases self@.len() - i,
        {
            proof {
                self.lemma_distinct();
                assert forall|j: int| 0 <= j < out@.len() implies (#[trigger] out@[j]).0
                    != self@[i as int].0 by {
                    assert(out@[j] == self@[j]);
                }
            }
            let old_out = out.insert(self.keys[i], self.vars[i].copy());
            assert(out@ =~= self@.subrange(0, i + 1));
            i += 1;
        }
        assert(out@ =~= self@);
        out
    }

    /// The dimensions of all variables, added up.
    pub fn dim(&self) -> (r: usize)
        requires
            self.wf(),
            total_dim(self@) <= usize::MAX,
        ensures
            r == total_dim(self@),
    {
        let mut total: usize = 0;
        let mut i: usize = 0;
        while i < self.vars.len()
            invariant
                self.wf(),
                total_dim(self@) <= usize::MAX,
                i <= self@.len(),
                total == offset_model(self@, i as nat),
            decreases self@.len() - i,
        {
            proof {
                lemma_offset_monotone(self@, (i + 1) as nat, self@.len());
            }
            total = total + self.vars[i].dim();
            i += 1;
        }
        total
    }

    /// Retracts `delta` onto the variables: each takes its part, in the
    /// order of insertion.
    pub fn oplus_mut(&mut self, delta: &Vec<T>)
        requires
            old(self).wf(),
            delta@.len() == total_dim(old(self)@),
        ensures
            final(self).wf(),
            final(self)@ == retract_model(old(self)@, models(delta@)),
    {
        let n: usize = self.vars.len();
        let width: usize = delta.len();
        let mut off: usize = 0;
        let mut i: usize = 0;
        while i < n
            invariant
                self.wf(),
                width == delta@.len(),
                n == old(self)@.len(),
                self.keys == old(self).keys,
                self.index == old(self).index,
                self.vars@.len() == n,
                delta@.len() == total_dim(old(self)@),
                i <= n,
                off == offset_model(old(self)@, i as nat),
                forall|j: int|
                    0 <= j < i ==> (#[trigger] self.vars@[j])@ == retract_model(
                        old(self)@,
                        models(delta@),
                    )[j].1,
                forall|j: int| i <= j < n ==> (#[trigger] self.vars@[j])@ == old(self)@[j].1,
            decreases n - i,
        {
            proof {
                lemma_offset_monotone(old(self)@, (i + 1) as nat, n as nat);
            }
            let d: usize = self.vars[i].dim();
            assert(off + d == offset_model(old(self)@, (i + 1) as nat));
            let part = slice_copy(delta, off, off + d);
            let next = self.vars[i].oplus(&part);
            self.vars[i] = next;
            off = off + d;
            i += 1;
        }
        assert(self@ =~= retract_model(old(self)@, models(delta@)));
    }
}

} // verus!
