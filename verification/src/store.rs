//! A small verified key/value table keyed by `u64`, used for every registry
//! of the protocol (providers, dapps, datasets, commitments, operators,
//! users). It is backed by a vector of entries with pairwise-distinct keys
//! and is viewed as a `Map<u64, V>`.

use vstd::prelude::*;

verus! {

/// The finite map denoted by a sequence of key/value entries, later entries
/// taking precedence over earlier ones.
pub open spec fn entries_map<V>(entries: Seq<(u64, V)>) -> Map<u64, V>
    decreases entries.len(),
{
    if entries.len() == 0 {
        Map::empty()
    } else {
        entries_map(entries.drop_last()).insert(entries.last().0, entries.last().1)
    }
}

/// No key occurs twice in the entry sequence.
pub open spec fn distinct_keys<V>(entries: Seq<(u64, V)>) -> bool {
    forall|i: int, j: int|
        0 <= i < j < entries.len() ==> (#[trigger] entries[i]).0 != (#[trigger] entries[j]).0
}

/// A key is in the denoted map exactly when some entry carries it.
proof fn lemma_entries_map_contains<V>(entries: Seq<(u64, V)>, key: u64)
    ensures
        entries_map(entries).contains_key(key) <==> (exists|i: int|
            0 <= i < entries.len() && (#[trigger] entries[i]).0 == key),
    decreases entries.len(),
{
    if entries.len() == 0 {
    } else {
        lemma_entries_map_contains(entries.drop_last(), key);
        if entries.last().0 == key {
            assert((entries[entries.len() - 1]).0 == key);
        } else {
            if exists|i: int| 0 <= i < entries.len() && (#[trigger] entries[i]).0 == key {
                let i = choose|i: int| 0 <= i < entries.len() && (#[trigger] entries[i]).0 == key;
                assert((entries.drop_last()[i]).0 == key);
            }
            if entries_map(entries.drop_last()).contains_key(key) {
                let i = choose|i: int|
                    0 <= i < entries.drop_last().len() && (#[trigger] entries.drop_last()[i]).0
                        == key;
                assert((entries[i]).0 == key);
            }
        }
    }
}

/// Dropping the last entry preserves key distinctness.
proof fn lemma_distinct_drop_last<V>(entries: Seq<(u64, V)>)
    requires
        distinct_keys(entries),
        entries.len() > 0,
    ensures
        distinct_keys(entries.drop_last()),
{
    assert forall|i: int, j: int|
        0 <= i < j < entries.drop_last().len() implies (#[trigger] entries.drop_last()[i]).0 != (
    #[trigger] entries.drop_last()[j]).0 by {
        assert((entries[i]).0 != (entries[j]).0);
    }
}

/// Under distinct keys, the entry at index `i` gives the map's value at its key.
proof fn lemma_entries_map_index<V>(entries: Seq<(u64, V)>, i: int)
    requires
        distinct_keys(entries),
        0 <= i < entries.len(),
    ensures
        entries_map(entries).contains_key(entries[i].0),
        entries_map(entries)[entries[i].0] == entries[i].1,
    decreases entries.len(),
{
    if i == entries.len() - 1 {
    } else {
        lemma_distinct_drop_last(entries);
        lemma_entries_map_index(entries.drop_last(), i);
        assert(entries.drop_last()[i] == entries[i]);
        assert((entries[i]).0 != (entries[entries.len() - 1]).0);
    }
}

/// Under distinct keys, the denoted map has exactly one element per entry.
proof fn lemma_entries_map_len<V>(entries: Seq<(u64, V)>)
    requires
        distinct_keys(entries),
    ensures
        entries_map(entries).dom().finite(),
        entries_map(entries).dom().len() == entries.len(),
    decreases entries.len(),
{
    if entries.len() == 0 {
        assert(entries_map(entries).dom() =~= Set::<u64>::empty());
    } else {
        lemma_distinct_drop_last(entries);
        lemma_entries_map_len(entries.drop_last());
        lemma_entries_map_contains(entries.drop_last(), entries.last().0);
        assert(!entries_map(entries.drop_last()).contains_key(entries.last().0)) by {
            if exists|i: int|
                0 <= i < entries.drop_last().len() && (#[trigger] entries.drop_last()[i]).0
                    == entries.last().0 {
                let i = choose|i: int|
                    0 <= i < entries.drop_last().len() && (#[trigger] entries.drop_last()[i]).0
                        == entries.last().0;
                assert((entries[i]).0 == (entries[entries.len() - 1]).0);
            }
        }
        assert(entries_map(entries).dom() =~= entries_map(entries.drop_last()).dom().insert(
            entries.last().0,
        ));
    }
}

/// Replacing the value stored at index `i` (keeping its key) denotes a map
/// update at that key.
proof fn lemma_entries_map_update<V>(entries: Seq<(u64, V)>, i: int, value: V)
    requires
        distinct_keys(entries),
        0 <= i < entries.len(),
    ensures
        entries_map(entries.update(i, (entries[i].0, value))) == entries_map(entries).insert(
            entries[i].0,
            value,
        ),
        distinct_keys(entries.update(i, (entries[i].0, value))),
    decreases entries.len(),
{
    let key = entries[i].0;
    let updated = entries.update(i, (key, value));
    assert forall|p: int, q: int|
        0 <= p < q < updated.len() implies (#[trigger] updated[p]).0 != (
    #[trigger] updated[q]).0 by {
        assert((entries[p]).0 != (entries[q]).0);
    }
    if i == entries.len() - 1 {
        assert(updated.drop_last() =~= entries.drop_last());
        assert(entries_map(updated) =~= entries_map(entries).insert(key, value));
    } else {
        assert(updated.drop_last() =~= entries.drop_last().update(i, (key, value)));
        lemma_distinct_drop_last(entries);
        lemma_entries_map_update(entries.drop_last(), i, value);
        assert(updated.last() == entries.last());
        assert((entries[i]).0 != (entries[entries.len() - 1]).0);
        assert(entries_map(updated) =~= entries_map(entries).insert(key, value));
    }
}

/// A key/value table storing each key at most once; the protocol's registry
/// collection. Its view is the finite map of its entries.
pub struct StoreMap<V> {
    entries: Vec<(u64, V)>,
}

impl<V> View for StoreMap<V> {
    type V = Map<u64, V>;

    closed spec fn view(&self) -> Map<u64, V> {
        entries_map(self.entries@)
    }
}

impl<V> StoreMap<V> {
    /// Well-formed: each key occurs at most once in the backing vector.
    pub closed spec fn wf(&self) -> bool {
        distinct_keys(self.entries@)
    }

    /// An empty table.
    pub fn new() -> (r: Self)
        ensures
            r.wf(),
            r@ == Map::<u64, V>::empty(),
    {
        StoreMap { entries: Vec::new() }
    }

    /// The stored value for `key`, if any.
    pub fn get(&self, key: u64) -> (r: Option<&V>)
        requires
            self.wf(),
        ensures
            match r {
                Some(v) => self@.contains_key(key) && *v == self@[key],
                None => !self@.contains_key(key),
            },
    {
        let n = self.entries.len();
        let mut idx: usize = 0;
        while idx < n
            invariant
                self.wf(),
                n == self.entries@.len(),
                idx <= n,
                forall|j: int| 0 <= j < idx ==> (#[trigger] self.entries@[j]).0 != key,
            decreases n - idx,
        {
            if self.entries[idx].0 == key {
                proof {
                    lemma_entries_map_index(self.entries@, idx as int);
                }
                return Some(&self.entries[idx].1);
            }
            idx += 1;
        }
        proof {
            lemma_entries_map_contains(self.entries@, key);
        }
        None
    }

    /// Whether a value is stored for `key`.
    pub fn contains_key(&self, key: u64) -> (r: bool)
        requires
            self.wf(),
        ensures
            r == self@.contains_key(key),
    {
        self.get(key).is_some()
    }

    /// Stores `value` for `key`, replacing any previous value.
    pub fn insert(&mut self, key: u64, value: V)
        requires
            old(self).wf(),
        ensures
            final(self).wf(),
            final(self)@ == old(self)@.insert(key, value),
    {
        let n = self.entries.len();
        let mut idx: usize = 0;
        while idx < n
            invariant
                self.wf(),
                self.entries@ == old(self).entries@,
                n == self.entries@.len(),
                idx <= n,
                forall|j: int| 0 <= j < idx ==> (#[trigger] self.entries@[j]).0 != key,
            decreases n - idx,
        {
            if self.entries[idx].0 == key {
                proof {
                    lemma_entries_map_update(self.entries@, idx as int, value);
                }
                self.entries.set(idx, (key, value));
                return ;
            }
            idx += 1;
        }
        self.entries.push((key, value));
        proof {
            assert(self.entries@.drop_last() =~= old(self).entries@);
            assert forall|p: int, q: int|
                0 <= p < q < self.entries@.len() implies (#[trigger] self.entries@[p]).0 != (
            #[trigger] self.entries@[q]).0 by {
                if q < self.entries@.len() - 1 {
                    assert((old(self).entries@[p]).0 != (old(self).entries@[q]).0);
                } else {
                    assert((old(self).entries@[p]).0 != key);
                }
            }
        }
    }

    /// All stored keys, each exactly once.
    pub fn keys(&self) -> (r: Vec<u64>)
        requires
            self.wf(),
        ensures
            r@.len() == self@.dom().len(),
            forall|k: u64| #[trigger] self@.contains_key(k) ==> r@.contains(k),
            forall|i: int| 0 <= i < r@.len() ==> self@.contains_key(#[trigger] r@[i]),
            forall|i: int, j: int| 0 <= i < j < r@.len() ==> r@[i] != r@[j],
    {
        let mut r: Vec<u64> = Vec::new();
        let n = self.entries.len();
        let mut idx: usize = 0;
        while idx < n
            invariant
                self.wf(),
                n == self.entries@.len(),
                idx <= n,
                r@.len() == idx,
                forall|j: int| 0 <= j < idx ==> r@[j] == (#[trigger] self.entries@[j]).0,
            decreases n - idx,
        {
            r.push(self.entries[idx].0);
            idx += 1;
        }
        proof {
            lemma_entries_map_len(self.entries@);
            assert forall|k: u64| #[trigger] self@.contains_key(k) implies r@.contains(k) by {
                lemma_entries_map_contains(self.entries@, k);
                let i = choose|i: int|
                    0 <= i < self.entries@.len() && (#[trigger] self.entries@[i]).0 == k;
                assert(r@[i] == k);
            }
            assert forall|i: int| 0 <= i < r@.len() implies self@.contains_key(
                #[trigger] r@[i],
            ) by {
                lemma_entries_map_index(self.entries@, i);
            }
            assert forall|i: int, j: int| 0 <= i < j < r@.len() implies r@[i] != r@[j] by {
                assert((self.entries@[i]).0 != (self.entries@[j]).0);
                assert(r@[i] == (self.entries@[i]).0);
                assert(r@[j] == (self.entries@[j]).0);
            }
        }
        r
    }

    /// How many keys are stored.
    pub fn len(&self) -> (r: usize)
        requires
            self.wf(),
        ensures
            r == self@.dom().len(),
    {
        proof {
            lemma_entries_map_len(self.entries@);
        }
        self.entries.len()
    }
}

} // verus!
