//! A map in which one value is stored under several keys at once.
use std::collections::HashMap;
use std::hash::Hash;
use vstd::prelude::*;
use vstd::std_specs::hash::obeys_key_model;

verus! {

/// A hash map that stores one value under several keys at once: each key
/// holds its own clone of the value.
pub struct MultiKeyMap<K, V> {
    inner: HashMap<K, V>,
}

impl<K, V> View for MultiKeyMap<K, V> {
    type V = Map<K, V>;

    closed spec fn view(&self) -> Map<K, V> {
        self.inner@
    }
}

/// What `MultiKeyMap::insert` hands back for the keys `keys`, given the map
/// `before` the call: nothing for no keys; for a last key that came earlier
/// in `keys`, a clone of `value` (that is checked by the caller); otherwise
/// what the map held under the last key.
pub open spec fn replaced_value<K, V>(before: Map<K, V>, keys: Seq<K>, r: Option<V>, value: V) -> bool
    where V: Clone
{
    if keys.len() == 0 {
        r is None
    } else if keys.drop_last().contains(keys.last()) {
        r matches Some(v) && cloned(value, v)
    } else if before.contains_key(keys.last()) {
        r == Some(before[keys.last()])
    } else {
        r is None
    }
}

/// The map after every key of `keys` was given a clone of `value`, relative
/// to the map `before`.
pub open spec fn stores_under_all<K, V>(before: Map<K, V>, after: Map<K, V>, keys: Seq<K>, value: V) -> bool
    where V: Clone
{
    &&& after.dom() == before.dom() + keys.to_set()
    &&& forall|k: K| #[trigger] keys.contains(k) ==> cloned(value, after[k])
    &&& forall|k: K| before.contains_key(k) && !keys.contains(k) ==> #[trigger] after[k] == before[k]
}

impl<K: Eq + Hash, V: Clone> MultiKeyMap<K, V> {
    /// An empty map.
    pub fn new() -> (m: Self)
        ensures
            m@ == Map::<K, V>::empty(),
    {
        MultiKeyMap { inner: HashMap::new() }
    }

    /// Stores a clone of `value` under each key of `keys`, in order, and
    /// returns what the last insertion replaced.
    pub fn insert(&mut self, keys: Vec<K>, value: V) -> (previous: Option<V>)
        ensures
            obeys_key_model::<K>() ==> {
                &&& stores_under_all(old(self)@, final(self)@, keys@, value)
                &&& replaced_value(old(self)@, keys@, previous, value)
            },
    {
        let ghost before = self@;
        let ghost ks = keys@;
        let mut previous_value = None;
        proof {
            assert(ks.take(0).to_set() =~= Set::empty());
            assert(before.dom() + ks.take(0).to_set() =~= before.dom());
        }
        for key in it: keys
            invariant
                it.seq() == ks,
                obeys_key_model::<K>() ==> {
                    &&& stores_under_all(before, self@, ks.take(it.index() as int), value)
                    &&& replaced_value(before, ks.take(it.index() as int), previous_value, value)
                },
        {
            let ghost done = ks.take(it.index() as int);
            let copy = value.clone();
            assert(cloned(value, copy));
            let ghost prev = self@;
            previous_value = self.inner.insert(key, copy);
            proof {
                let now = ks.take(it.index() as int + 1);
                assert(now.drop_last() =~= done);
                assert(now.last() == key);
                if obeys_key_model::<K>() {
                    assert(self@.dom() =~= before.dom() + now.to_set());
                    assert forall|k: K| #[trigger] now.contains(k) implies cloned(value, self@[k]) by {
                        if k != key {
                            let j = choose|j: int| 0 <= j < now.len() && now[j] == k;
                            assert(done[j] == k);
                            assert(done.contains(k));
                            assert(cloned(value, prev[k]));
                        }
                    }
                    assert forall|k: K| before.contains_key(k) && !now.contains(k) implies #[trigger] self@[k] == before[k] by {
                        if done.contains(k) {
                            let j = choose|j: int| 0 <= j < done.len() && done[j] == k;
                            assert(now[j] == k);
                        }
                    }
                }
            }
        }
        assert(ks.take(ks.len() as int) =~= ks);
        previous_value
    }

    /// The value stored under `key`, if any.
    pub fn get(&self, key: &K) -> (r: Option<&V>)
        ensures
            obeys_key_model::<K>() ==> match r {
                Some(v) => self@.contains_key(*key) && self@[*key] == *v,
                None => !self@.contains_key(*key),
            },
    {
        self.inner.get(key)
    }

    /// Removes `key` alone, returning the value it held.
    pub fn remove(&mut self, key: &K) -> (r: Option<V>)
        ensures
            obeys_key_model::<K>() ==> {
                &&& final(self)@ == old(self)@.remove(*key)
                &&& match r {
                    Some(v) => old(self)@.contains_key(*key) && old(self)@[*key] == v,
                    None => !old(self)@.contains_key(*key),
                }
            },
    {
        self.inner.remove(key)
    }

    /// Whether a value is stored under `key`.
    pub fn contains_key(&self, key: &K) -> (r: bool)
        ensures
            obeys_key_model::<K>() ==> r == self@.contains_key(*key),
    {
        self.inner.contains_key(key)
    }

    /// The number of keys in the map.
    pub fn len(&self) -> (n: usize)
        ensures
            obeys_key_model::<K>() ==> n == self@.len(),
    {
        self.inner.len()
    }

    /// Whether the map holds no key.
    pub fn is_empty(&self) -> (r: bool)
        ensures
            r == self@.is_empty(),
    {
        self.inner.is_empty()
    }
}

} // verus!

verus! {

/// After `insert`, each of the given keys holds a clone of the value.
pub proof fn law_insert_then_get<K, V: Clone>(before: Map<K, V>, after: Map<K, V>, keys: Seq<K>, value: V, k: K)
    requires
        stores_under_all(before, after, keys, value),
        keys.contains(k),
    ensures
        after.contains_key(k),
        cloned(value, after[k]),
{
}

/// `insert` leaves every key that it was not given as it was.
pub proof fn law_insert_keeps_other_keys<K, V: Clone>(before: Map<K, V>, after: Map<K, V>, keys: Seq<K>, value: V, k: K)
    requires
        stores_under_all(before, after, keys, value),
        !keys.contains(k),
    ensures
        after.contains_key(k) == before.contains_key(k),
        before.contains_key(k) ==> after[k] == before[k],
{
    assert(after.dom().contains(k) == (before.dom() + keys.to_set()).contains(k));
}

/// After `remove`, the key holds nothing, and only that key changed.
pub proof fn law_remove_then_absent<K, V>(before: Map<K, V>, k: K, other: K)
    requires
        other != k,
    ensures
        !before.remove(k).contains_key(k),
        before.remove(k).contains_key(other) == before.contains_key(other),
{
}

/// Inserting a value under one new key and removing that key again gives
/// back the map one started from, and the removal hands back the stored
/// clone of the value.
pub proof fn law_insert_then_remove_restores<K, V: Clone>(before: Map<K, V>, after: Map<K, V>, k: K, value: V)
    requires
        !before.contains_key(k),
        stores_under_all(before, after, seq![k], value),
    ensures
        after.remove(k) == before,
        after.contains_key(k),
        cloned(value, after[k]),
{
    assert(seq![k][0] == k);
    assert(seq![k].contains(k));
    assert forall|j: K| #[trigger] after.remove(k).contains_key(j) == before.contains_key(j) by {
        assert(after.dom().contains(j) == (before.dom() + seq![k].to_set()).contains(j));
        assert(seq![k].contains(j) <==> j == k) by {
            if seq![k].contains(j) {
                let i = choose|i: int| 0 <= i < 1 && seq![k][i] == j;
            }
            if j == k {
                assert(seq![k][0] == j);
            }
        }
    }
    assert forall|j: K| #[trigger] after.remove(k).contains_key(j) implies after.remove(k)[j] == before[j] by {
        assert(seq![k].contains(j) ==> j == k) by {
            if seq![k].contains(j) {
                let i = choose|i: int| 0 <= i < 1 && seq![k][i] == j;
            }
        }
    }
    assert(after.remove(k) =~= before);
}

/// A map is empty exactly when it holds no key.
pub proof fn law_empty_iff_len_zero<K, V>(m: &MultiKeyMap<K, V>)
    ensures
        m@.is_empty() <==> m@.len() == 0,
{
    broadcast use vstd::std_specs::hash::axiom_hashmap_view_finite_dom, vstd::set_lib::lemma_set_empty_equivalency_len;
    assert(m@.dom().finite());
}

} // verus!

verus! {

/// For values whose clone is the value itself, such as `u64`, inserting a
/// value under one new key and removing that key hands back exactly that
/// value and gives back the map one started from.
pub proof fn law_insert_then_remove_exact<K>(before: Map<K, u64>, after: Map<K, u64>, k: K, value: u64)
    requires
        !before.contains_key(k),
        stores_under_all(before, after, seq![k], value),
    ensures
        after.remove(k) == before,
        after.contains_key(k),
        after[k] == value,
{
    law_insert_then_remove_restores(before, after, k, value);
    let stored = after[k];
    assert(cloned(value, stored));
    if stored != value {
        assert(call_ensures(<u64 as Clone>::clone, (&value,), stored));
    }
}

} // verus!
