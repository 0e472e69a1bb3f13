//! A verified association map with copyable keys, backed by a vector of
//! key/value pairs with pairwise-distinct keys. Its mathematical view is a
//! `Map` from keys to values.

use vstd::prelude::*;

verus! {

/// A key type usable in an [`AssocMap`]: copyable, with an executable
/// equality test that decides mathematical equality.
pub trait MapKey: Copy + Sized {
    /// Decide whether two keys are equal.
    fn key_eq(&self, other: &Self) -> (r: bool)
        ensures
            r == (*self == *other),
    ;
}

impl MapKey for u64 {
    fn key_eq(&self, other: &Self) -> (r: bool)
        ensures
            r == (*self == *other),
    {
        *self == *other
    }
}

/// Pairwise-distinct keys in an entry sequence.
pub open spec fn keys_unique<K, V>(s: Seq<(K, V)>) -> bool {
    forall|i: int, j: int|
        0 <= i < j < s.len() ==> (#[trigger] s[i]).0 != (#[trigger] s[j]).0
}

/// The map denoted by an entry sequence; later entries win.
pub open spec fn seq_to_map<K, V>(s: Seq<(K, V)>) -> Map<K, V>
    decreases s.len(),
{
    if s.len() == 0 {
        Map::empty()
    } else {
        seq_to_map(s.drop_last()).insert(s.last().0, s.last().1)
    }
}

/// The domain of the denoted map is exactly the set of keys occurring in the
/// sequence, and when keys are distinct each key maps to its entry's value.
pub proof fn lemma_seq_to_map_properties<K, V>(s: Seq<(K, V)>)
    ensures
        forall|k: K| #[trigger]
            seq_to_map(s).dom().contains(k) ==> exists|i: int|
                0 <= i < s.len() && (#[trigger] s[i]).0 == k,
        forall|i: int|
            0 <= i < s.len() ==> seq_to_map(s).dom().contains((#[trigger] s[i]).0),
        keys_unique(s) ==> forall|i: int|
            0 <= i < s.len() ==> seq_to_map(s)[(#[trigger] s[i]).0] == s[i].1,
    decreases s.len(),
{
    if s.len() > 0 {
        let s0 = s.drop_last();
        lemma_seq_to_map_properties(s0);
        assert(forall|i: int| 0 <= i < s0.len() ==> #[trigger] s0[i] == s[i]);
        assert(seq_to_map(s) == seq_to_map(s0).insert(s.last().0, s.last().1));
        assert forall|k: K| #[trigger] seq_to_map(s).dom().contains(k) implies exists|i: int|
            0 <= i < s.len() && (#[trigger] s[i]).0 == k by {
            if k == s.last().0 {
                assert(s[s.len() - 1].0 == k);
            } else {
                assert(seq_to_map(s0).dom().contains(k));
                let i = choose|i: int| 0 <= i < s0.len() && (#[trigger] s0[i]).0 == k;
                assert(s[i].0 == k);
            }
        }
        assert forall|i: int| 0 <= i < s.len() implies seq_to_map(s).dom().contains(
            (#[trigger] s[i]).0,
        ) by {
            if i < s.len() - 1 {
                assert(s0[i] == s[i]);
                assert(seq_to_map(s0).dom().contains(s0[i].0));
            }
        }
        if keys_unique(s) {
            assert(keys_unique(s0));
            assert forall|i: int| 0 <= i < s.len() implies seq_to_map(s)[(#[trigger] s[i]).0]
                == s[i].1 by {
                if i < s.len() - 1 {
                    assert(s0[i] == s[i]);
                    assert(seq_to_map(s0)[s0[i].0] == s0[i].1);
                    // the last key differs from s[i].0 by uniqueness
                    assert(s[s.len() - 1].0 != s[i].0);
                }
            }
        }
    }
}

/// A key that has no entry in the sequence is not in the denoted map's domain.
pub proof fn lemma_seq_to_map_absent<K, V>(s: Seq<(K, V)>, k: K)
    requires
        forall|i: int| 0 <= i < s.len() ==> (#[trigger] s[i]).0 != k,
    ensures
        !seq_to_map(s).dom().contains(k),
{
    lemma_seq_to_map_properties(s);
    if seq_to_map(s).dom().contains(k) {
        let i = choose|i: int| 0 <= i < s.len() && (#[trigger] s[i]).0 == k;
    }
}

/// Removing the entry at index `i` removes its key from the denoted map,
/// provided keys are distinct.
pub proof fn lemma_seq_to_map_remove<K, V>(s: Seq<(K, V)>, i: int)
    requires
        keys_unique(s),
        0 <= i < s.len(),
    ensures
        seq_to_map(s.remove(i)) == seq_to_map(s).remove(s[i].0),
    decreases s.len(),
{
    lemma_seq_to_map_properties(s);
    lemma_seq_to_map_properties(s.drop_last());
    if i == s.len() - 1 {
        assert(s.remove(i) =~= s.drop_last());
        // the removed key does not occur among the earlier entries
        assert(!seq_to_map(s.drop_last()).dom().contains(s[i].0)) by {
            assert(forall|j: int|
                0 <= j < s.drop_last().len() ==> (#[trigger] s.drop_last()[j]).0 != s[i].0);
            lemma_seq_to_map_absent(s.drop_last(), s[i].0);
        }
        assert(seq_to_map(s).remove(s[i].0) =~= seq_to_map(s.drop_last()));
    } else {
        assert(keys_unique(s.drop_last()));
        lemma_seq_to_map_remove(s.drop_last(), i);
        assert(s.remove(i).drop_last() =~= s.drop_last().remove(i));
        assert(s.remove(i).last() == s.last());
        assert(s.last().0 != s[i].0);
        assert(seq_to_map(s.remove(i)) =~= seq_to_map(s).remove(s[i].0));
    }
}

/// Length of the domain equals the number of entries when keys are distinct.
pub proof fn lemma_unique_len<K, V>(s: Seq<(K, V)>)
    requires
        keys_unique(s),
    ensures
        seq_to_map(s).dom().len() == s.len(),
        seq_to_map(s).dom().finite(),
    decreases s.len(),
{
    if s.len() == 0 {
        assert(seq_to_map(s).dom() =~= Set::<K>::empty());
    } else {
        assert(keys_unique(s.drop_last()));
        lemma_unique_len(s.drop_last());
        lemma_seq_to_map_properties(s.drop_last());
        assert(!seq_to_map(s.drop_last()).dom().contains(s.last().0)) by {
            assert(forall|j: int|
                0 <= j < s.drop_last().len() ==> (#[trigger] s.drop_last()[j]).0 != s.last().0);
            lemma_seq_to_map_absent(s.drop_last(), s.last().0);
        }
    }
}

/// An association map from `K` to `V` whose view is a `Map<K, V>`.
pub struct AssocMap<K, V> {
    entries: Vec<(K, V)>,
}

impl<K: MapKey, V> View for AssocMap<K, V> {
    type V = Map<K, V>;

    closed spec fn view(&self) -> Map<K, V> {
        seq_to_map(self.entries@)
    }
}

impl<K: MapKey, V> AssocMap<K, V> {
    /// Distinct keys: every map carries this as its well-formedness condition.
    pub closed spec fn wf(self) -> bool {
        keys_unique(self.entries@)
    }

    /// The entries as a sequence, for iteration.
    pub closed spec fn entries_seq(self) -> Seq<(K, V)> {
        self.entries@
    }

    /// Every entry is a binding of the map's view.
    pub proof fn lemma_entries_are_bindings(&self)
        requires
            self.wf(),
        ensures
            forall|i: int|
                0 <= i < self.entries_seq().len() ==> self@.dom().contains(
                    (#[trigger] self.entries_seq()[i]).0,
                ) && self@[self.entries_seq()[i].0] == self.entries_seq()[i].1,
            forall|k: K|
                self@.dom().contains(k) ==> exists|i: int|
                    0 <= i < self.entries_seq().len() && (#[trigger] self.entries_seq()[i]).0 == k,
    {
        lemma_seq_to_map_properties(self.entries@);
        assert forall|k: K| self@.dom().contains(k) implies exists|i: int|
            0 <= i < self.entries_seq().len() && (#[trigger] self.entries_seq()[i]).0 == k by {
            let i = choose|i: int|
                0 <= i < self.entries@.len() && (#[trigger] self.entries@[i]).0 == k;
            assert(self.entries_seq()[i].0 == k);
        }
    }

    /// The empty map.
    pub fn new() -> (r: Self)
        ensures
            r.wf(),
            r@ == Map::<K, V>::empty(),
            r.entries_seq() == Seq::<(K, V)>::empty(),
    {
        AssocMap { entries: Vec::new() }
    }

    /// Index of the entry holding `k`, if any.
    fn index_of(&self, k: &K) -> (r: Option<usize>)
        ensures
            match r {
                Some(i) => i < self.entries@.len() && self.entries@[i as int].0 == *k,
                None => forall|i: int|
                    0 <= i < self.entries@.len() ==> (#[trigger] self.entries@[i]).0 != *k,
            },
    {
        let n = self.entries.len();
        let mut i: usize = 0;
        while i < n
            invariant
                n == self.entries@.len(),
                0 <= i <= n,
                forall|j: int| 0 <= j < i ==> (#[trigger] self.entries@[j]).0 != *k,
            decreases n - i,
        {
            if self.entries[i].0.key_eq(k) {
                return Some(i);
            }
            i += 1;
        }
        None
    }

    /// Whether `k` has an entry.
    pub fn contains_key(&self, k: &K) -> (r: bool)
        ensures
            r == self@.dom().contains(*k),
    {
        proof {
            lemma_seq_to_map_properties(self.entries@);
        }
        match self.index_of(k) {
            Some(i) => {
                proof {
                    assert(self.entries@[i as int].0 == *k);
                }
                true
            },
            None => {
                proof {
                    lemma_seq_to_map_absent(self.entries@, *k);
                }
                false
            },
        }
    }

    /// The value bound to `k`, if any.
    pub fn get(&self, k: &K) -> (r: Option<&V>)
        requires
            self.wf(),
        ensures
            match r {
                Some(v) => self@.dom().contains(*k) && self@[*k] == *v,
                None => !self@.dom().contains(*k),
            },
    {
        proof {
            lemma_seq_to_map_properties(self.entries@);
        }
        match self.index_of(k) {
            Some(i) => {
                proof {
                    assert(self.entries@[i as int].0 == *k);
                }
                Some(&self.entries[i].1)
            },
            None => {
                proof {
                    lemma_seq_to_map_absent(self.entries@, *k);
                }
                None
            },
        }
    }

    /// Remove and return the entry at index `i`.
    fn remove_at(&mut self, i: usize) -> (r: (K, V))
        requires
            old(self).wf(),
            i < old(self).entries_seq().len(),
        ensures
            final(self).wf(),
            r == old(self).entries_seq()[i as int],
            final(self)@ == old(self)@.remove(r.0),
            final(self).entries_seq().len() == old(self).entries_seq().len() - 1,
    {
        let ghost s = self.entries@;
        let e = self.entries.remove(i);
        proof {
            lemma_seq_to_map_remove(s, i as int);
            assert(keys_unique(self.entries@)) by {
                assert(forall|j: int| 0 <= j < i ==> s.remove(i as int)[j] == s[j]);
                assert(forall|j: int|
                    i <= j < s.remove(i as int).len() ==> s.remove(i as int)[j] == s[j + 1]);
            }
        }
        e
    }

    /// Push an entry whose key is known to be absent.
    fn push_absent(&mut self, k: K, v: V)
        requires
            old(self).wf(),
            !old(self)@.dom().contains(k),
        ensures
            final(self).wf(),
            final(self)@ == old(self)@.insert(k, v),
    {
        proof {
            lemma_seq_to_map_properties(self.entries@);
        }
        let ghost s = self.entries@;
        self.entries.push((k, v));
        proof {
            assert(self.entries@.drop_last() =~= s);
            assert(forall|i: int| 0 <= i < s.len() ==> (#[trigger] s[i]).0 != k);
            assert(keys_unique(self.entries@)) by {
                assert(forall|i: int| 0 <= i < s.len() ==> #[trigger] self.entries@[i] == s[i]);
            }
        }
    }

    /// Bind `k` to `v`, replacing any existing binding.
    pub fn insert(&mut self, k: K, v: V)
        requires
            old(self).wf(),
        ensures
            final(self).wf(),
            final(self)@ == old(self)@.insert(k, v),
    {
        proof {
            lemma_seq_to_map_properties(self.entries@);
        }
        match self.index_of(&k) {
            Some(i) => {
                let _old_entry = self.remove_at(i);
                self.push_absent(k, v);
                proof {
                    assert(self@ =~= old(self)@.insert(k, v));
                }
            },
            None => {
                proof {
                    lemma_seq_to_map_absent(self.entries@, k);
                }
                self.push_absent(k, v);
            },
        }
    }

    /// Remove the binding of `k`, if present.
    pub fn remove(&mut self, k: &K)
        requires
            old(self).wf(),
        ensures
            final(self).wf(),
            final(self)@ == old(self)@.remove(*k),
    {
        proof {
            lemma_seq_to_map_properties(self.entries@);
        }
        match self.index_of(k) {
            Some(i) => {
                let _entry = self.remove_at(i);
            },
            None => {
                proof {
                    lemma_seq_to_map_absent(self.entries@, *k);
                    assert(self@ =~= self@.remove(*k));
                }
            },
        }
    }

    /// Remove and return the binding of `k`, if present.
    pub fn take(&mut self, k: &K) -> (r: Option<V>)
        requires
            old(self).wf(),
        ensures
            final(self).wf(),
            final(self)@ == old(self)@.remove(*k),
            match r {
                Some(v) => old(self)@.dom().contains(*k) && old(self)@[*k] == v,
                None => !old(self)@.dom().contains(*k),
            },
    {
        proof {
            lemma_seq_to_map_properties(self.entries@);
        }
        match self.index_of(k) {
            Some(i) => {
                let e = self.remove_at(i);
                Some(e.1)
            },
            None => {
                proof {
                    lemma_seq_to_map_absent(self.entries@, *k);
                    assert(self@ =~= self@.remove(*k));
                }
                None
            },
        }
    }

    /// Number of bindings.
    pub fn len(&self) -> (r: usize)
        requires
            self.wf(),
        ensures
            r == self@.dom().len(),
            r == self.entries_seq().len(),
    {
        proof {
            lemma_unique_len(self.entries@);
        }
        self.entries.len()
    }

    /// The entry at position `i`, for iteration over the map's contents.
    pub fn entry_at(&self, i: usize) -> (r: (K, &V))
        requires
            self.wf(),
            i < self.entries_seq().len(),
        ensures
            r.0 == self.entries_seq()[i as int].0,
            *r.1 == self.entries_seq()[i as int].1,
            self@.dom().contains(r.0),
            self@[r.0] == *r.1,
    {
        proof {
            lemma_seq_to_map_properties(self.entries@);
        }
        let e = &self.entries[i];
        (e.0, &e.1)
    }
}

/// Keys that carry a total "at least" test against a `u64` bound; used for
/// garbage collection of view-keyed maps.
pub trait KeyAtLeast: Sized {
    /// The mathematical meaning of the test.
    spec fn at_least_spec(self, bound: u64) -> bool;

    /// Decide the test.
    fn at_least_exec(&self, bound: u64) -> (r: bool)
        ensures
            r == self.at_least_spec(bound),
    ;
}

impl KeyAtLeast for u64 {
    open spec fn at_least_spec(self, bound: u64) -> bool {
        self >= bound
    }

    fn at_least_exec(&self, bound: u64) -> (r: bool)
        ensures
            r == self.at_least_spec(bound),
    {
        *self >= bound
    }
}

impl<K: MapKey + KeyAtLeast, V> AssocMap<K, V> {
    /// Index of some entry whose key is below the bound, if any.
    fn find_below(&self, bound: u64) -> (r: Option<usize>)
        ensures
            match r {
                Some(i) => i < self.entries@.len() && !self.entries@[i as int].0.at_least_spec(
                    bound,
                ),
                None => forall|i: int|
                    0 <= i < self.entries@.len() ==> (#[trigger] self.entries@[i]).0.at_least_spec(
                        bound,
                    ),
            },
    {
        let n = self.entries.len();
        let mut i: usize = 0;
        while i < n
            invariant
                n == self.entries@.len(),
                0 <= i <= n,
                forall|j: int| 0 <= j < i ==> (#[trigger] self.entries@[j]).0.at_least_spec(bound),
            decreases n - i,
        {
            if !self.entries[i].0.at_least_exec(bound) {
                return Some(i);
            }
            i += 1;
        }
        None
    }

    /// Drop every binding whose key lies below `bound`, returning the dropped
    /// bindings; what stays is the restriction of the map to keys at or above
    /// the bound.
    pub fn retain_at_least(&mut self, bound: u64) -> (removed: Vec<(K, V)>)
        requires
            old(self).wf(),
        ensures
            final(self).wf(),
            final(self)@ == old(self)@.restrict(Set::new(|k: K| k.at_least_spec(bound))),
            forall|j: int|
                0 <= j < removed@.len() ==> !(#[trigger] removed@[j]).0.at_least_spec(bound)
                    && old(self)@.dom().contains(removed@[j].0) && old(self)@[removed@[j].0]
                    == removed@[j].1,
    {
        let ghost m0 = self@;
        let mut removed: Vec<(K, V)> = Vec::new();
        loop
            invariant
                self.wf(),
                forall|k: K| #[trigger]
                    self@.dom().contains(k) ==> m0.dom().contains(k) && m0[k] == self@[k],
                forall|k: K| #[trigger]
                    m0.dom().contains(k) && k.at_least_spec(bound) ==> self@.dom().contains(k),
                forall|j: int|
                    0 <= j < removed@.len() ==> !(#[trigger] removed@[j]).0.at_least_spec(bound)
                        && m0.dom().contains(removed@[j].0) && m0[removed@[j].0] == removed@[j].1,
            ensures
                forall|i: int|
                    0 <= i < self.entries@.len() ==> (#[trigger] self.entries@[i]).0.at_least_spec(
                        bound,
                    ),
            decreases self.entries_seq().len(),
        {
            match self.find_below(bound) {
                None => {
                    break;
                },
                Some(i) => {
                    proof {
                        self.lemma_entries_are_bindings();
                    }
                    let e = self.remove_at(i);
                    removed.push(e);
                },
            }
        }
        proof {
            self.lemma_entries_are_bindings();
            assert(self@ =~= m0.restrict(Set::new(|k: K| k.at_least_spec(bound)))) by {
                assert forall|k: K| self@.dom().contains(k) implies k.at_least_spec(bound) by {
                    lemma_seq_to_map_properties(self.entries@);
                    let i = choose|i: int|
                        0 <= i < self.entries@.len() && (#[trigger] self.entries@[i]).0 == k;
                    assert(self.entries@[i].0.at_least_spec(bound));
                }
            }
        }
        removed
    }
}

} // verus!
