use std::collections::HashMap;
use std::hash::Hash;
use vstd::prelude::*;
use vstd::pervasive::cloned;
use vstd::std_specs::hash::obeys_key_model;

verus! {

broadcast use vstd::std_specs::hash::group_hash_axioms;

/// `after` is `before` with the element at slot `i` taken out and the last
/// element moved into its place (when `i` was not the last slot).
pub open spec fn removed_slot<A>(before: Seq<A>, i: int, after: Seq<A>) -> bool {
    &&& 0 <= i < before.len()
    &&& after == before.update(i, before.last()).drop_last()
}

/// `m` after inserting the pairs of `s` in order, a later pair winning.
pub open spec fn inserted_all<K, V>(m: Map<K, V>, s: Seq<(K, V)>) -> Map<K, V>
    decreases s.len(),
{
    if s.len() == 0 {
        m
    } else {
        inserted_all(m, s.drop_last()).insert(s.last().0, s.last().1)
    }
}

/// The values that inserting the pairs of `s` in order into `m` replaces,
/// in the order they are replaced.
pub open spec fn replaced_all<K, V>(m: Map<K, V>, s: Seq<(K, V)>) -> Seq<V>
    decreases s.len(),
{
    if s.len() == 0 {
        Seq::empty()
    } else {
        let before = inserted_all(m, s.drop_last());
        if before.contains_key(s.last().0) {
            replaced_all(m, s.drop_last()).push(before[s.last().0])
        } else {
            replaced_all(m, s.drop_last())
        }
    }
}

/// `m` after removing the keys of `ks` in order.
pub open spec fn removed_all<K, V>(m: Map<K, V>, ks: Seq<K>) -> Map<K, V>
    decreases ks.len(),
{
    if ks.len() == 0 {
        m
    } else {
        removed_all(m, ks.drop_last()).remove(ks.last())
    }
}

/// The keys present after inserting the pairs of `s` are those present
/// before and those of `s`.
pub proof fn lemma_inserted_all_dom<K, V>(m: Map<K, V>, s: Seq<(K, V)>)
    ensures
        inserted_all(m, s).dom() == m.dom() + s.map_values(|p: (K, V)| p.0).to_set(),
    decreases s.len(),
{
    if s.len() > 0 {
        lemma_inserted_all_dom(m, s.drop_last());
        assert(s.map_values(|p: (K, V)| p.0) =~= s.drop_last().map_values(|p: (K, V)| p.0).push(s.last().0));
        assert(s.map_values(|p: (K, V)| p.0).to_set() =~= s.drop_last().map_values(|p: (K, V)| p.0).to_set().insert(s.last().0)) by {
            broadcast use vstd::seq_lib::group_seq_properties;
        }
        assert(inserted_all(m, s).dom() =~= m.dom() + s.map_values(|p: (K, V)| p.0).to_set());
    } else {
        assert(s.map_values(|p: (K, V)| p.0).to_set() =~= Set::empty()) by {
            broadcast use vstd::seq_lib::group_seq_properties;
        }
        assert(m.dom() + Set::empty() =~= m.dom());
    }
}

/// The keys present after removing the keys of `ks` are those present
/// before, less those of `ks`.
pub proof fn lemma_removed_all_dom<K, V>(m: Map<K, V>, ks: Seq<K>)
    ensures
        removed_all(m, ks).dom() == m.dom() - ks.to_set(),
    decreases ks.len(),
{
    broadcast use vstd::seq_lib::group_seq_properties;
    if ks.len() > 0 {
        lemma_removed_all_dom(m, ks.drop_last());
        assert(ks =~= ks.drop_last().push(ks.last()));
        assert(ks.to_set() =~= ks.drop_last().to_set().insert(ks.last()));
        assert(removed_all(m, ks).dom() =~= m.dom() - ks.to_set());
    } else {
        assert(ks.to_set() =~= Set::empty());
        assert(m.dom() - Set::empty() =~= m.dom());
    }
}

/// Inserting pairs with distinct keys into an empty map, then removing
/// those keys in any order, leaves the map empty, with length zero.
pub proof fn lemma_round_trip<K, V>(pairs: Seq<(K, V)>, order: Seq<K>)
    requires
        pairs.map_values(|p: (K, V)| p.0).no_duplicates(),
        order.to_multiset() == pairs.map_values(|p: (K, V)| p.0).to_multiset(),
    ensures
        removed_all(inserted_all(Map::<K, V>::empty(), pairs), order) == Map::<K, V>::empty(),
        removed_all(inserted_all(Map::<K, V>::empty(), pairs), order).len() == 0,
{
    broadcast use vstd::seq_lib::group_to_multiset_ensures;
    let keys = pairs.map_values(|p: (K, V)| p.0);
    let full = inserted_all(Map::<K, V>::empty(), pairs);
    lemma_inserted_all_dom(Map::<K, V>::empty(), pairs);
    lemma_removed_all_dom(full, order);
    assert(order.to_set() =~= keys.to_set()) by {
        assert forall|k: K| order.to_set().contains(k) <==> keys.to_set().contains(k) by {
            assert(order.contains(k) <==> order.to_multiset().count(k) > 0);
            assert(keys.contains(k) <==> keys.to_multiset().count(k) > 0);
        }
    }
    assert(Map::<K, V>::empty().dom() + keys.to_set() =~= keys.to_set());
    assert(removed_all(full, order).dom() =~= Set::empty());
    assert(removed_all(full, order) =~= Map::<K, V>::empty());
}

/// A map whose values sit densely packed in a vector, one slot each, with a
/// key index that maps each key to its slot and each slot back to its key.
/// Removal moves the last value into the freed slot and repairs the index.
pub struct IndexedHashMap<TKey, TValue> {
    inner: Vec<TValue>,
    slot_key: Vec<TKey>,
    indexer: HashMap<TKey, usize>,
}

impl<TKey, TValue> View for IndexedHashMap<TKey, TValue> {
    type V = Map<TKey, TValue>;

    /// Each key present, with the value in its slot.
    open spec fn view(&self) -> Map<TKey, TValue> {
        Map::new(|k: TKey| self.slot_of().contains_key(k), |k: TKey| self.slot_values()[self.slot_of()[k] as int])
    }
}

impl<TKey, TValue> IndexedHashMap<TKey, TValue> {
    /// The values, slot by slot.
    pub closed spec fn slot_values(&self) -> Seq<TValue> {
        self.inner@
    }

    /// The key of each slot.
    pub closed spec fn slot_keys(&self) -> Seq<TKey> {
        self.slot_key@
    }

    /// The slot of each key.
    pub closed spec fn slot_of(&self) -> Map<TKey, usize> {
        self.indexer@
    }

    /// The key index and the values agree: slots and keys correspond one to
    /// one, and every slot holds a value.
    pub closed spec fn wf(&self) -> bool {
        &&& obeys_key_model::<TKey>()
        &&& self.inner@.len() == self.slot_key@.len()
        &&& self.indexer@.dom().finite()
        &&& self.indexer@.len() == self.inner@.len()
        &&& forall|k: TKey| #[trigger] self.indexer@.contains_key(k) ==> self.indexer@[k] < self.slot_key@.len()
            && self.slot_key@[self.indexer@[k] as int] == k
        &&& forall|i: int| 0 <= i < self.slot_key@.len() ==> self.indexer@.contains_key(#[trigger] self.slot_key@[i])
            && self.indexer@[self.slot_key@[i]] == i
    }

    /// No key, no slot, no value.
    pub open spec fn is_cleared(&self) -> bool {
        &&& self@ == Map::<TKey, TValue>::empty()
        &&& self.slot_values().len() == 0
        &&& self.slot_keys().len() == 0
        &&& self.slot_of() == Map::<TKey, usize>::empty()
    }

    /// Clearing twice is clearing once: whatever a map held, after `clear`
    /// it is in the one cleared state, and `clear` on that state leads back
    /// to it.
    pub proof fn lemma_clear_idempotent(once: &Self, twice: &Self)
        requires
            once.wf(),
            once.is_cleared(),
            twice.wf(),
            twice.is_cleared(),
        ensures
            twice@ == once@,
            twice.slot_values() == once.slot_values(),
            twice.slot_keys() == once.slot_keys(),
            twice.slot_of() == once.slot_of(),
    {
        assert(twice.slot_values() =~= once.slot_values());
        assert(twice.slot_keys() =~= once.slot_keys());
    }

    /// In a well-formed map, every key present has a slot below the length
    /// whose reverse lookup gives the key back, every slot has exactly one
    /// key, and there are as many keys as values.
    pub proof fn lemma_bijection(&self)
        requires
            self.wf(),
        ensures
            self.slot_values().len() == self.slot_keys().len(),
            self.slot_of().len() == self.slot_values().len(),
            forall|k: TKey| #[trigger] self.slot_of().contains_key(k) ==> self.slot_of()[k] < self.slot_keys().len()
                && self.slot_keys()[self.slot_of()[k] as int] == k,
            forall|i: int| 0 <= i < self.slot_keys().len() ==> self.slot_of().contains_key(#[trigger] self.slot_keys()[i])
                && self.slot_of()[self.slot_keys()[i]] == i,
    {
    }

}

impl<TKey: Copy + Hash + Eq, TValue> IndexedHashMap<TKey, TValue> {
    pub fn new() -> (r: Self)
        requires
            obeys_key_model::<TKey>(),
        ensures
            r.wf(),
            r.is_cleared(),
    {
        let r = IndexedHashMap { inner: Vec::new(), slot_key: Vec::new(), indexer: HashMap::new() };
        proof {
            assert(r@ =~= Map::<TKey, TValue>::empty());
        }
        r
    }

    /// Stores `value` under `key`. A key already present keeps its slot and
    /// its old value comes back; a new key takes a new last slot.
    pub fn insert(&mut self, key: TKey, value: TValue) -> (r: Option<TValue>)
        requires
            old(self).wf(),
        ensures
            final(self).wf(),
            final(self)@ == old(self)@.insert(key, value),
            old(self)@.contains_key(key) ==> r == Some(old(self)@[key])
                && final(self).slot_keys() == old(self).slot_keys()
                && final(self).slot_of() == old(self).slot_of()
                && final(self).slot_values() == old(self).slot_values().update(old(self).slot_of()[key] as int, value),
            !old(self)@.contains_key(key) ==> r.is_none()
                && final(self).slot_keys() == old(self).slot_keys().push(key)
                && final(self).slot_of() == old(self).slot_of().insert(key, old(self).slot_values().len() as usize)
                && final(self).slot_values() == old(self).slot_values().push(value),
    {
        match self.indexer.get(&key) {
            Some(slot) => {
                let slot = *slot;
                let ghost stored = value;
                let mut value = value;
                std::mem::swap(&mut self.inner[slot], &mut value);
                proof {
                    assert(self@ =~= old(self)@.insert(key, stored));
                }
                Some(value)
            },
            None => {
                let slot = self.inner.len();
                self.inner.push(value);
                self.slot_key.push(key);
                self.indexer.insert(key, slot);
                proof {
                    assert(self@ =~= old(self)@.insert(key, value));
                }
                None
            },
        }
    }
    /// Removes `key` and gives back its value. The value in the last slot
    /// moves into the freed slot, and its key is re-pointed there; when the
    /// freed slot was the last one nothing moves. The key of the moved value
    /// is always found: the slot-to-key half of the index is kept in step
    /// with the key-to-slot half, so the two cannot disagree.
    pub fn remove(&mut self, key: &TKey) -> (r: Option<TValue>)
        requires
            old(self).wf(),
        ensures
            final(self).wf(),
            !old(self)@.contains_key(*key) ==> r.is_none()
                && final(self).slot_values() == old(self).slot_values()
                && final(self).slot_keys() == old(self).slot_keys()
                && final(self).slot_of() == old(self).slot_of(),
            old(self)@.contains_key(*key) ==> r == Some(old(self)@[*key])
                && final(self)@ == old(self)@.remove(*key)
                && removed_slot(old(self).slot_values(), old(self).slot_of()[*key] as int, final(self).slot_values())
                && removed_slot(old(self).slot_keys(), old(self).slot_of()[*key] as int, final(self).slot_keys())
                && (old(self).slot_of()[*key] == old(self).slot_keys().len() - 1 ==>
                    final(self).slot_of() == old(self).slot_of().remove(*key))
                && (old(self).slot_of()[*key] < old(self).slot_keys().len() - 1 ==>
                    final(self).slot_of() == old(self).slot_of().remove(*key).insert(
                        old(self).slot_keys().last(), old(self).slot_of()[*key])),
    {
        let removed = self.indexer.remove(key);
        match removed {
            None => None,
            Some(slot) => {
                let ghost last = old(self).slot_key@.last();
                let value = self.inner.swap_remove(slot);
                let gone = self.slot_key.swap_remove(slot);
                if slot < self.slot_key.len() {
                    let moved = self.slot_key[slot];
                    self.indexer.insert(moved, slot);
                    proof {
                        assert(moved == last);
                        assert(self.indexer@ == old(self).indexer@.remove(*key).insert(last, slot));
                    }
                }
                proof {
                    assert(self.indexer@.len() == self.inner@.len());
                    assert(self@ =~= old(self)@.remove(*key));
                }
                Some(value)
            },
        }
    }
    pub fn get(&self, key: &TKey) -> (r: Option<&TValue>)
        requires
            self.wf(),
        ensures
            self@.contains_key(*key) ==> r == Some(&self@[*key]),
            !self@.contains_key(*key) ==> r.is_none(),
    {
        match self.indexer.get(key) {
            Some(slot) => Some(&self.inner[*slot]),
            None => None,
        }
    }

    pub fn get_mut(&mut self, key: &TKey) -> (r: Option<&mut TValue>)
        requires
            old(self).wf(),
        ensures
            !old(self)@.contains_key(*key) ==> r.is_none() && *final(self) == *old(self),
            old(self)@.contains_key(*key) ==> r.is_some() && *r.unwrap() == old(self)@[*key]
                && final(self).wf()
                && final(self)@ == old(self)@.insert(*key, *final(r.unwrap()))
                && final(self).slot_values() == old(self).slot_values().update(
                    old(self).slot_of()[*key] as int, *final(r.unwrap()))
                && final(self).slot_keys() == old(self).slot_keys()
                && final(self).slot_of() == old(self).slot_of(),
    {
        match self.indexer.get(key) {
            Some(slot) => {
                let slot = *slot;
                Some(&mut self.inner[slot])
            },
            None => None,
        }
    }
    /// The value in slot `index`, if there is such a slot.
    pub fn try_index(&self, index: usize) -> (r: Option<&TValue>)
        ensures
            index < self.slot_values().len() ==> r == Some(&self.slot_values()[index as int]),
            index >= self.slot_values().len() ==> r.is_none(),
    {
        if index < self.inner.len() {
            Some(&self.inner[index])
        } else {
            None
        }
    }

    pub fn try_index_mut(&mut self, index: usize) -> (r: Option<&mut TValue>)
        requires
            old(self).wf(),
        ensures
            index >= old(self).slot_values().len() ==> r.is_none() && *final(self) == *old(self),
            index < old(self).slot_values().len() ==> r.is_some() && *r.unwrap() == old(self).slot_values()[index as int]
                && final(self).wf()
                && final(self).slot_values() == old(self).slot_values().update(index as int, *final(r.unwrap()))
                && final(self).slot_keys() == old(self).slot_keys()
                && final(self).slot_of() == old(self).slot_of(),
    {
        if index < self.inner.len() {
            Some(&mut self.inner[index])
        } else {
            None
        }
    }

    /// The slot of `key`.
    pub fn key_to_index(&self, key: &TKey) -> (r: Option<&usize>)
        requires
            self.wf(),
        ensures
            self.slot_of().contains_key(*key) ==> r == Some(&self.slot_of()[*key]),
            !self.slot_of().contains_key(*key) ==> r.is_none(),
    {
        self.indexer.get(key)
    }

    /// The key of slot `index`.
    pub fn index_to_key(&self, index: &usize) -> (r: Option<&TKey>)
        requires
            self.wf(),
        ensures
            *index < self.slot_keys().len() ==> r == Some(&self.slot_keys()[*index as int]),
            *index >= self.slot_keys().len() ==> r.is_none(),
    {
        if *index < self.slot_key.len() {
            Some(&self.slot_key[*index])
        } else {
            None
        }
    }

    pub fn contains_key(&self, key: &TKey) -> (r: bool)
        requires
            self.wf(),
        ensures
            r == self@.contains_key(*key),
    {
        self.indexer.contains_key(key)
    }

    /// Whether some key has slot `index`.
    pub fn contains_index(&self, index: &usize) -> (r: bool)
        requires
            self.wf(),
        ensures
            r == (*index < self.slot_keys().len()),
            r == exists|k: TKey| #[trigger] self.slot_of().contains_key(k) && self.slot_of()[k] == *index,
    {
        let r = *index < self.slot_key.len();
        proof {
            if r {
                let k = self.slot_key@[*index as int];
                assert(self.slot_of().contains_key(k));
            }
        }
        r
    }

    pub fn len(&self) -> (r: usize)
        requires
            self.wf(),
        ensures
            r == self@.len(),
            r == self.slot_values().len(),
    {
        proof {
            assert(self@.dom() =~= self.indexer@.dom());
        }
        self.indexer.len()
    }

    pub fn is_empty(&self) -> (r: bool)
        requires
            self.wf(),
        ensures
            r == (self@.len() == 0),
            r == (self.slot_values().len() == 0),
    {
        proof {
            assert(self@.dom() =~= self.indexer@.dom());
        }
        self.indexer.is_empty()
    }

    /// Empties both the values and the key index.
    pub fn clear(&mut self)
        requires
            old(self).wf(),
        ensures
            final(self).wf(),
            final(self).is_cleared(),
    {
        self.inner.clear();
        self.slot_key.clear();
        self.indexer.clear();
        proof {
            assert(self@ =~= Map::<TKey, TValue>::empty());
            assert(self.indexer@ =~= Map::<TKey, usize>::empty());
        }
    }

    /// The keys, slot by slot.
    pub fn keys(&self) -> (r: Vec<&TKey>)
        ensures
            r@.len() == self.slot_keys().len(),
            forall|i: int| 0 <= i < r@.len() ==> *r@[i] == self.slot_keys()[i],
    {
        let mut r: Vec<&TKey> = Vec::new();
        let mut i: usize = 0;
        while i < self.slot_key.len()
            invariant
                i <= self.slot_key@.len(),
                r@.len() == i,
                forall|k: int| 0 <= k < i ==> *r@[k] == self.slot_key@[k],
            decreases self.slot_key@.len() - i,
        {
            r.push(&self.slot_key[i]);
            i = i + 1;
        }
        r
    }

    /// The values, slot by slot.
    pub fn values(&self) -> (r: Vec<&TValue>)
        ensures
            r@.len() == self.slot_values().len(),
            forall|i: int| 0 <= i < r@.len() ==> *r@[i] == self.slot_values()[i],
    {
        let mut r: Vec<&TValue> = Vec::new();
        let mut i: usize = 0;
        while i < self.inner.len()
            invariant
                i <= self.inner@.len(),
                r@.len() == i,
                forall|k: int| 0 <= k < i ==> *r@[k] == self.inner@[k],
            decreases self.inner@.len() - i,
        {
            r.push(&self.inner[i]);
            i = i + 1;
        }
        r
    }

    /// The values, slot by slot, open for changes in place.
    pub fn values_mut(&mut self) -> (r: &mut [TValue])
        requires
            old(self).wf(),
        ensures
            r@ == old(self).slot_values(),
            final(self).slot_values() == final(r)@,
            final(self).slot_keys() == old(self).slot_keys(),
            final(self).slot_of() == old(self).slot_of(),
    {
        self.inner.as_mut_slice()
    }

    /// Each slot with its key and value, slot by slot.
    pub fn iter(&self) -> (r: Vec<(usize, &TKey, &TValue)>)
        requires
            self.wf(),
        ensures
            r@.len() == self.slot_values().len(),
            forall|i: int| 0 <= i < r@.len() ==> (#[trigger] r@[i]).0 == i && *r@[i].1 == self.slot_keys()[i]
                && *r@[i].2 == self.slot_values()[i],
    {
        let mut r: Vec<(usize, &TKey, &TValue)> = Vec::new();
        let mut i: usize = 0;
        while i < self.inner.len()
            invariant
                self.wf(),
                i <= self.inner@.len(),
                r@.len() == i,
                forall|k: int| 0 <= k < i ==> (#[trigger] r@[k]).0 == k && *r@[k].1 == self.slot_key@[k] && *r@[k].2 == self.inner@[k],
            decreases self.inner@.len() - i,
        {
            r.push((i, &self.slot_key[i], &self.inner[i]));
            i = i + 1;
        }
        r
    }

    /// Inserts each pair in order, and gives back the values that were
    /// replaced, in the order they were replaced.
    pub fn consume_from(&mut self, other: Vec<(TKey, TValue)>) -> (r: Vec<TValue>)
        requires
            old(self).wf(),
        ensures
            final(self).wf(),
            final(self)@ == inserted_all(old(self)@, other@),
            r@ == replaced_all(old(self)@, other@),
    {
        let ghost given = other@;
        let mut other = other;
        let mut pending: Vec<(TKey, TValue)> = Vec::new();
        while other.len() > 0
            invariant
                pending@ + other@.reverse() == given.reverse(),
            decreases other@.len(),
        {
            let p = other.pop().unwrap();
            pending.push(p);
            proof {
                assert(pending@ + other@.reverse() =~= given.reverse());
            }
        }
        proof {
            assert(pending@ =~= given.reverse());
        }
        let mut r: Vec<TValue> = Vec::new();
        let ghost done: Seq<(TKey, TValue)> = Seq::empty();
        while pending.len() > 0
            invariant
                self.wf(),
                done + pending@.reverse() == given,
                self@ == inserted_all(old(self)@, done),
                r@ == replaced_all(old(self)@, done),
            decreases pending@.len(),
        {
            let (key, value) = pending.pop().unwrap();
            proof {
                assert(done.push((key, value)) + pending@.reverse() =~= given);
                assert(done.push((key, value)).drop_last() =~= done);
            }
            let old_value = self.insert(key, value);
            match old_value {
                Some(v) => r.push(v),
                None => {},
            }
            proof {
                done = done.push((key, value));
            }
        }
        proof {
            assert(done =~= given);
        }
        r
    }

    /// All pairs, slot by slot.
    pub fn into_vec(self) -> (r: Vec<(TKey, TValue)>)
        requires
            self.wf(),
        ensures
            r@.len() == self.slot_values().len(),
            forall|i: int| 0 <= i < r@.len() ==> r@[i] == (self.slot_keys()[i], self.slot_values()[i]),
    {
        let ghost keys = self.slot_key@;
        let ghost vals = self.inner@;
        let mut inner = self.inner;
        let mut slot_key = self.slot_key;
        let mut reversed: Vec<(TKey, TValue)> = Vec::new();
        while inner.len() > 0
            invariant
                inner@.len() == slot_key@.len(),
                inner@ == vals.subrange(0, inner@.len() as int),
                slot_key@ == keys.subrange(0, inner@.len() as int),
                vals.len() == keys.len(),
                reversed@.len() + inner@.len() == vals.len(),
                forall|k: int| 0 <= k < reversed@.len() ==> #[trigger] reversed@[k] == (keys[vals.len() - 1 - k], vals[vals.len() - 1 - k]),
            decreases inner@.len(),
        {
            let v = inner.pop().unwrap();
            let k = slot_key.pop().unwrap();
            reversed.push((k, v));
            proof {
                assert(inner@ =~= vals.subrange(0, inner@.len() as int));
                assert(slot_key@ =~= keys.subrange(0, inner@.len() as int));
            }
        }
        let mut r: Vec<(TKey, TValue)> = Vec::new();
        while reversed.len() > 0
            invariant
                vals.len() == keys.len(),
                reversed@.len() + r@.len() == vals.len(),
                forall|k: int| 0 <= k < reversed@.len() ==> #[trigger] reversed@[k] == (keys[vals.len() - 1 - k], vals[vals.len() - 1 - k]),
                forall|k: int| 0 <= k < r@.len() ==> #[trigger] r@[k] == (keys[k], vals[k]),
            decreases reversed@.len(),
        {
            let p = reversed.pop().unwrap();
            r.push(p);
        }
        r
    }
    /// Inserts a copy of each pair in order, and gives back the values that
    /// were replaced, in the order they were replaced.
    pub fn extend_from_slice(&mut self, other: &[(TKey, TValue)]) -> (r: Vec<TValue>)
        where
            TValue: Clone,
        requires
            old(self).wf(),
        ensures
            final(self).wf(),
            exists|copies: Seq<(TKey, TValue)>|
                #![trigger inserted_all(old(self)@, copies)]
                {
                    &&& copies.len() == other@.len()
                    &&& forall|i: int| 0 <= i < copies.len() ==> (#[trigger] copies[i]).0 == other@[i].0
                        && cloned(other@[i].1, copies[i].1)
                    &&& final(self)@ == inserted_all(old(self)@, copies)
                    &&& r@ == replaced_all(old(self)@, copies)
                },
    {
        let mut copies: Vec<(TKey, TValue)> = Vec::new();
        let mut i: usize = 0;
        while i < other.len()
            invariant
                i <= other@.len(),
                copies@.len() == i,
                forall|k: int| 0 <= k < i ==> (#[trigger] copies@[k]).0 == other@[k].0 && cloned(other@[k].1, copies@[k].1),
            decreases other@.len() - i,
        {
            let key = other[i].0;
            let value = other[i].1.clone();
            copies.push((key, value));
            i = i + 1;
        }
        let ghost made = copies@;
        let r = self.consume_from(copies);
        proof {
            assert(made.len() == other@.len());
        }
        r
    }
}

impl<TKey: Copy + Hash + Eq, TValue> std::ops::Index<usize> for IndexedHashMap<TKey, TValue> {
    type Output = TValue;

    /// The value in slot `index`, which must exist.
    fn index(&self, index: usize) -> (r: &TValue)
        ensures
            *r == self.slot_values()[index as int],
    {
        &self.inner[index]
    }
}

impl<TKey: Copy + Hash + Eq, TValue> vstd::std_specs::core::IndexSpecImpl<usize> for IndexedHashMap<TKey, TValue> {
    open spec fn index_req(&self, index: &usize) -> bool {
        *index < self.slot_values().len()
    }
}

impl<'a, TKey: Copy + Hash + Eq, TValue> std::ops::Index<&'a TKey> for IndexedHashMap<TKey, TValue> {
    type Output = TValue;

    /// The value of `key`, which must be present.
    fn index(&self, key: &'a TKey) -> (r: &TValue)
        ensures
            *r == self@[*key],
    {
        let slot = self.indexer.get(key).unwrap();
        &self.inner[*slot]
    }
}

impl<'a, TKey: Copy + Hash + Eq, TValue> vstd::std_specs::core::IndexSpecImpl<&'a TKey> for IndexedHashMap<TKey, TValue> {
    open spec fn index_req(&self, key: &&'a TKey) -> bool {
        self.wf() && self@.contains_key(**key)
    }
}

} // verus!
