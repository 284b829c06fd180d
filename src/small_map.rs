use vstd::prelude::*;
use vstd::std_specs::cmp::PartialEqSpec;
use crate::capacity::{next_power_of_two, vec_capacity, vec_reserve_exact, vec_shrink_to_fit, vec_try_reserve_exact};
use crate::retain::{kept, lemma_kept_step};
use crate::indexed_map::{first_key_at, key_absent};

verus! {

/// `std::slice::IterMut`, carried through as an opaque value.
#[verifier::external_type_specification]
#[verifier::external_body]
#[verifier::reject_recursive_types(T)]
pub struct ExIterMut<'a, T: 'a>(std::slice::IterMut<'a, T>);

/// Relies on `<[T]>::iter_mut`: an iterator that hands out each element
/// of the slice, in order, for change in place.
#[verifier::external_body]
pub(crate) fn slice_iter_mut<T>(s: &mut [T]) -> (r: std::slice::IterMut<'_, T>) {
    s.iter_mut()
}

/// `s` after inserting `p`: the first pair with an equal key takes the new
/// value in place; with none, `p` goes to the end.
pub open spec fn inserted<K: PartialEq, V>(s: Seq<(K, V)>, p: (K, V)) -> Seq<(K, V)> {
    if exists|i: int| first_key_at(s, &p.0, i) {
        let i = choose|i: int| first_key_at(s, &p.0, i);
        s.update(i, (s[i].0, p.1))
    } else {
        s.push(p)
    }
}

/// `s` after inserting the pairs of `ps` in order.
pub open spec fn inserted_pairs<K: PartialEq, V>(s: Seq<(K, V)>, ps: Seq<(K, V)>) -> Seq<(K, V)>
    decreases ps.len(),
{
    if ps.len() == 0 {
        s
    } else {
        inserted(inserted_pairs(s, ps.drop_last()), ps.last())
    }
}

/// A map for few entries: its pairs sit in one vector in insertion order, and
/// lookups walk it. `N` is how many pairs it is meant to hold without
/// spilling past that many.
#[derive(Clone, Debug)]
pub struct SmallMap<K, V, const N: usize>(Vec<(K, V)>);

impl<K, V, const N: usize> View for SmallMap<K, V, N> {
    type V = Seq<(K, V)>;

    closed spec fn view(&self) -> Seq<(K, V)> {
        self.0@
    }
}

impl<K, V, const N: usize> Default for SmallMap<K, V, N> {
    fn default() -> (r: Self)
        ensures
            r@ == Seq::<(K, V)>::empty(),
    {
        SmallMap(Vec::with_capacity(N))
    }
}

impl<K: PartialEq, V, const N: usize> SmallMap<K, V, N> {
    /// An empty collection with room for `N` entries.
    pub fn new() -> (r: Self)
        ensures
            r@ == Seq::<(K, V)>::empty(),
    {
        SmallMap(Vec::with_capacity(N))
    }

    /// An empty collection with room for `n` entries, and never less than `N`.
    pub fn with_capacity(n: usize) -> (r: Self)
        ensures
            r@ == Seq::<(K, V)>::empty(),
    {
        if n < N {
            SmallMap(Vec::with_capacity(N))
        } else {
            SmallMap(Vec::with_capacity(n))
        }
    }

    pub fn len(&self) -> (r: usize)
        ensures
            r == self@.len(),
    {
        self.0.len()
    }

    pub fn is_empty(&self) -> (r: bool)
        ensures
            r == (self@.len() == 0),
    {
        self.0.len() == 0
    }

    /// The keys, in order.
    pub fn keys(&self) -> (r: Vec<&K>)
        ensures
            r@.len() == self@.len(),
            forall|i: int| 0 <= i < r@.len() ==> *r@[i] == self@[i].0,
    {
        let mut r: Vec<&K> = Vec::new();
        let mut i: usize = 0;
        while i < self.0.len()
            invariant
                i <= self.0@.len(),
                r@.len() == i,
                forall|k: int| 0 <= k < i ==> *r@[k] == self.0@[k].0,
            decreases self.0@.len() - i,
        {
            r.push(&self.0[i].0);
            i = i + 1;
        }
        r
    }

    /// The values, in order.
    pub fn values(&self) -> (r: Vec<&V>)
        ensures
            r@.len() == self@.len(),
            forall|i: int| 0 <= i < r@.len() ==> *r@[i] == self@[i].1,
    {
        let mut r: Vec<&V> = Vec::new();
        let mut i: usize = 0;
        while i < self.0.len()
            invariant
                i <= self.0@.len(),
                r@.len() == i,
                forall|k: int| 0 <= k < i ==> *r@[k] == self.0@[k].1,
            decreases self.0@.len() - i,
        {
            r.push(&self.0[i].1);
            i = i + 1;
        }
        r
    }

    /// The pairs, in order, split into their keys and their values.
    fn into_parts(self) -> (r: (Vec<K>, Vec<V>))
        ensures
            r.0@.len() == self@.len(),
            r.1@.len() == self@.len(),
            forall|i: int| 0 <= i < self@.len() ==> r.0@[i] == self@[i].0 && r.1@[i] == self@[i].1,
    {
        let ghost all = self.0@;
        let mut rest = self.0;
        let mut keys: Vec<K> = Vec::new();
        let mut values: Vec<V> = Vec::new();
        let mut reversed: Vec<(K, V)> = Vec::new();
        while rest.len() > 0
            invariant
                rest@ + reversed@.reverse() == all,
            decreases rest@.len(),
        {
            let p = rest.pop().unwrap();
            reversed.push(p);
            proof {
                assert(rest@ + reversed@.reverse() =~= all);
            }
        }
        proof {
            assert(reversed@.reverse() =~= all);
        }
        while reversed.len() > 0
            invariant
                keys@.len() == values@.len(),
                keys@.len() + reversed@.len() == all.len(),
                forall|k: int| 0 <= k < reversed@.len() ==> #[trigger] reversed@[k] == all[all.len() - 1 - k],
                forall|k: int| 0 <= k < keys@.len() ==> keys@[k] == all[k].0 && values@[k] == all[k].1,
            decreases reversed@.len(),
        {
            let (k, v) = reversed.pop().unwrap();
            keys.push(k);
            values.push(v);
        }
        (keys, values)
    }

    /// The keys, in order, taken out of the map.
    pub fn into_keys(self) -> (r: Vec<K>)
        ensures
            r@.len() == self@.len(),
            forall|i: int| 0 <= i < r@.len() ==> r@[i] == self@[i].0,
    {
        let (keys, values) = self.into_parts();
        keys
    }

    /// The values, in order, taken out of the map.
    pub fn into_values(self) -> (r: Vec<V>)
        ensures
            r@.len() == self@.len(),
            forall|i: int| 0 <= i < r@.len() ==> r@[i] == self@[i].1,
    {
        let (keys, values) = self.into_parts();
        values
    }

    /// The position of the pair whose key equals `k`.
    fn position(&self, k: &K) -> (r: Option<usize>)
        ensures
            r matches Some(i) ==> i < self@.len(),
            K::obeys_eq_spec() ==> match r {
                Some(i) => first_key_at(self@, k, i as int),
                None => key_absent(self@, k),
            },
    {
        let mut i: usize = 0;
        while i < self.0.len()
            invariant
                i <= self.0@.len(),
                K::obeys_eq_spec() ==> forall|j: int| 0 <= j < i ==> !(#[trigger] self.0@[j]).0.eq_spec(k),
            decreases self.0@.len() - i,
        {
            if self.0[i].0.eq(k) {
                return Some(i);
            }
            i = i + 1;
        }
        None
    }

    /// The value of the pair whose key equals `k`.
    pub fn get(&self, k: &K) -> (r: Option<&V>)
        ensures
            K::obeys_eq_spec() ==> match r {
                Some(v) => exists|i: int| first_key_at(self@, k, i) && *v == self@[i].1,
                None => key_absent(self@, k),
            },
    {
        match self.position(k) {
            Some(i) => Some(&self.0[i].1),
            None => None,
        }
    }

    /// The pair whose key equals `k`.
    pub fn get_key_value(&self, k: &K) -> (r: Option<(&K, &V)>)
        ensures
            K::obeys_eq_spec() ==> match r {
                Some(p) => exists|i: int| first_key_at(self@, k, i) && *p.0 == self@[i].0 && *p.1 == self@[i].1,
                None => key_absent(self@, k),
            },
    {
        match self.position(k) {
            Some(i) => Some((&self.0[i].0, &self.0[i].1)),
            None => None,
        }
    }

    pub fn contains_key(&self, k: &K) -> (r: bool)
        ensures
            K::obeys_eq_spec() ==> r == !key_absent(self@, k),
    {
        self.position(k).is_some()
    }

    /// The value of the pair whose key equals `k`, open for change in place.
    pub fn get_mut(&mut self, k: &K) -> (r: Option<&mut V>)
        ensures
            r.is_none() ==> final(self)@ == old(self)@,
            K::obeys_eq_spec() ==> match r {
                Some(v) => exists|i: int|
                    first_key_at(old(self)@, k, i) && *v == old(self)@[i].1
                        && final(self)@ == old(self)@.update(i, (old(self)@[i].0, *final(v))),
                None => key_absent(old(self)@, k),
            },
    {
        match self.position(k) {
            Some(i) => Some(&mut self.0[i].1),
            None => None,
        }
    }

    /// How many pairs fit without reallocating; the room for `N` always counts.
    pub fn capacity(&self) -> (r: usize)
        ensures
            r >= self@.len(),
            r >= N,
    {
        let cap = vec_capacity(&self.0);
        if cap < N {
            N
        } else {
            cap
        }
    }

    /// Whether the storage has grown past the `N` pairs the map is meant for.
    pub fn spilled(&self) -> (r: bool) {
        vec_capacity(&self.0) > N
    }

    /// Takes out the pairs at the positions of `range`.
    pub fn drain(&mut self, range: std::ops::Range<usize>) -> (r: Vec<(K, V)>)
        requires
            range.start <= range.end <= old(self)@.len(),
        ensures
            r@ == old(self)@.subrange(range.start as int, range.end as int),
            final(self)@ == old(self)@.subrange(0, range.start as int) + old(self)@.subrange(range.end as int, old(self)@.len() as int),
    {
        let mut tail = self.0.split_off(range.end);
        let taken = self.0.split_off(range.start);
        self.0.append(&mut tail);
        taken
    }

    /// Stores `value` under `key`: the pair with an equal key takes it in
    /// place and its old value comes back; otherwise the pair is appended.
    pub fn insert(&mut self, key: K, value: V) -> (r: Option<V>)
        ensures
            r.is_none() ==> final(self)@ == old(self)@.push((key, value)),
            K::obeys_eq_spec() ==> final(self)@ == inserted(old(self)@, (key, value)),
            K::obeys_eq_spec() ==> match r {
                Some(v) => exists|i: int| first_key_at(old(self)@, &key, i) && v == old(self)@[i].1,
                None => key_absent(old(self)@, &key),
            },
    {
        match self.position(&key) {
            Some(i) => {
                let ghost stored = value;
                let mut value = value;
                std::mem::swap(&mut self.0[i].1, &mut value);
                proof {
                    if K::obeys_eq_spec() {
                        let c = choose|j: int| first_key_at(old(self)@, &key, j);
                        crate::indexed_map::lemma_first_key_unique(old(self)@, &key, i as int, c);
                        let p = (key, stored);
                        assert(p.0 == key);
                        assert(exists|j: int| first_key_at(old(self)@, &p.0, j));
                        assert(c == choose|j: int| first_key_at(old(self)@, &p.0, j));
                        assert(self@ =~= old(self)@.update(c, (old(self)@[c].0, stored)));
                        assert(self@ =~= inserted(old(self)@, (key, stored)));
                    }
                }
                Some(value)
            },
            None => {
                self.0.push((key, value));
                proof {
                    if K::obeys_eq_spec() {
                        crate::indexed_map::lemma_absent_no_first(old(self)@, &key);
                    }
                }
                None
            },
        }
    }

    /// Makes room for `additional` more entries; when it has to grow, the
    /// room becomes the next power of two at or above what is needed.
    pub fn reserve(&mut self, additional: usize)
        ensures
            final(self)@ == old(self)@,
    {
        let len = self.0.len();
        let cap = vec_capacity(&self.0);
        if cap - len < additional {
            if additional <= usize::MAX - len {
                let target = next_power_of_two(len + additional);
                vec_reserve_exact(&mut self.0, target - len);
            } else {
                self.0.reserve(additional);
            }
        }
    }

    pub fn try_reserve(&mut self, additional: usize) -> (r: Result<(), std::collections::TryReserveError>)
        ensures
            final(self)@ == old(self)@,
    {
        self.0.try_reserve(additional)
    }

    pub fn reserve_exact(&mut self, additional: usize)
        ensures
            final(self)@ == old(self)@,
    {
        vec_reserve_exact(&mut self.0, additional)
    }

    pub fn try_reserve_exact(&mut self, additional: usize) -> (r: Result<(), std::collections::TryReserveError>)
        ensures
            final(self)@ == old(self)@,
    {
        vec_try_reserve_exact(&mut self.0, additional)
    }

    pub fn shrink_to_fit(&mut self)
        ensures
            final(self)@ == old(self)@,
    {
        vec_shrink_to_fit(&mut self.0)
    }

    pub fn as_slice(&self) -> (r: &[(K, V)])
        ensures
            r@ == self@,
    {
        self.0.as_slice()
    }

    pub fn as_mut_slice(&mut self) -> (r: &mut [(K, V)])
        ensures
            r@ == old(self)@,
            final(self)@ == final(r)@,
    {
        self.0.as_mut_slice()
    }

    pub fn clear(&mut self)
        ensures
            final(self)@ == Seq::<(K, V)>::empty(),
    {
        self.0.clear();
    }

    /// Removes the pair whose key equals `key`, moving the last pair into its
    /// place, and gives back its value.
    pub fn remove(&mut self, key: &K) -> (r: Option<V>)
        ensures
            r.is_none() ==> final(self)@ == old(self)@,
            K::obeys_eq_spec() ==> match r {
                Some(v) => exists|i: int|
                    first_key_at(old(self)@, key, i) && v == old(self)@[i].1
                        && final(self)@ == old(self)@.update(i, old(self)@.last()).drop_last(),
                None => key_absent(old(self)@, key),
            },
    {
        match self.position(key) {
            Some(i) => Some(self.0.swap_remove(i).1),
            None => None,
        }
    }

    /// All pairs, in order.
    pub fn into_vec(self) -> (r: Vec<(K, V)>)
        ensures
            r@ == self@,
    {
        self.0
    }

    /// Keeps, in order, the pairs for which `f` holds; `f` is called once
    /// per pair, in order.
    pub fn retain<F: Fn(&K, &V) -> bool>(&mut self, f: F)
        requires
            forall|k: &K, v: &V| f.requires((k, v)),
        ensures
            exists|keep: Seq<bool>|
                #![trigger kept(old(self)@, keep)]
                {
                    &&& keep.len() == old(self)@.len()
                    &&& forall|i: int| 0 <= i < keep.len() ==> f.ensures((&old(self)@[i].0, &old(self)@[i].1), #[trigger] keep[i])
                    &&& final(self)@ == kept(old(self)@, keep)
                },
    {
        let ghost before = self.0@;
        let mut rest: Vec<(K, V)> = Vec::new();
        while self.0.len() > 0
            invariant
                self.0@ + rest@.reverse() == before,
            decreases self.0@.len(),
        {
            let p = self.0.pop().unwrap();
            rest.push(p);
            proof {
                assert(self.0@ + rest@.reverse() =~= before);
            }
        }
        proof {
            assert(rest@.reverse() =~= before);
        }
        let n = rest.len();
        let mut keep: Vec<bool> = Vec::new();
        let mut i: usize = 0;
        while i < n
            invariant
                i <= n,
                n == before.len(),
                rest@.len() == n - i,
                forall|k: int| 0 <= k < n - i ==> #[trigger] rest@[k] == before[n - 1 - k],
                keep@.len() == i,
                forall|k: &K, v: &V| f.requires((k, v)),
                forall|k: int| 0 <= k < i ==> f.ensures((&before[k].0, &before[k].1), #[trigger] keep@[k]),
                self.0@ == kept(before.take(i as int), keep@),
            decreases n - i,
        {
            let p = rest.pop().unwrap();
            proof {
                assert(p == before[i as int]);
            }
            let b = f(&p.0, &p.1);
            let ghost decided = keep@;
            keep.push(b);
            proof {
                let full = keep@ + Seq::new((n - i - 1) as nat, |j: int| false);
                assert(full.take(i as int) =~= decided);
                assert(full.take(i as int + 1) =~= keep@);
                assert(full[i as int] == b);
                lemma_kept_step(before, full, i as int);
            }
            if b {
                self.0.push(p);
            }
            i = i + 1;
        }
        proof {
            assert(before.take(n as int) =~= before);
            assert(before == old(self)@);
            assert(self@ == kept(old(self)@, keep@));
            assert(forall|i: int| 0 <= i < keep@.len() ==> f.ensures((&old(self)@[i].0, &old(self)@[i].1), #[trigger] keep@[i]));
        }
    }

    pub fn iter(&self) -> (r: std::slice::Iter<'_, (K, V)>) {
        self.0.as_slice().iter()
    }

    /// Each pair, in order, for change in place.
    pub fn iter_mut(&mut self) -> (r: std::slice::IterMut<'_, (K, V)>) {
        slice_iter_mut(self.0.as_mut_slice())
    }

    /// A map holding the pairs of `pairs`, inserted in order.
    pub fn from_vec(pairs: Vec<(K, V)>) -> (r: Self)
        ensures
            K::obeys_eq_spec() ==> r@ == inserted_pairs(Seq::<(K, V)>::empty(), pairs@),
    {
        let mut map = SmallMap::new();
        map.extend(pairs);
        map
    }

    /// Inserts each pair of `pairs` in order.
    pub fn extend(&mut self, pairs: Vec<(K, V)>)
        ensures
            K::obeys_eq_spec() ==> final(self)@ == inserted_pairs(old(self)@, pairs@),
    {
        let ghost given = pairs@;
        let mut other = pairs;
        let mut rest: Vec<(K, V)> = Vec::new();
        while other.len() > 0
            invariant
                other@ + rest@.reverse() == given,
            decreases other@.len(),
        {
            let p = other.pop().unwrap();
            rest.push(p);
            proof {
                assert(other@ + rest@.reverse() =~= given);
            }
        }
        let ghost done: Seq<(K, V)> = Seq::empty();
        proof {
            assert(rest@.reverse() =~= given);
            assert(done + rest@.reverse() =~= given);
        }
        while rest.len() > 0
            invariant
                done + rest@.reverse() == given,
                K::obeys_eq_spec() ==> self@ == inserted_pairs(old(self)@, done),
            decreases rest@.len(),
        {
            let p = rest.pop().unwrap();
            proof {
                assert(done.push(p) + rest@.reverse() =~= given);
                assert(done.push(p).drop_last() =~= done);
            }
            let ghost q = p;
            let replaced = self.insert(p.0, p.1);
            proof {
                done = done.push(q);
            }
        }
        proof {
            assert(done =~= given);
        }
    }
}

impl<'a, K: PartialEq, V, const N: usize> std::ops::Index<&'a K> for SmallMap<K, V, N> {
    type Output = V;

    /// The value of the pair whose key equals `key`, which must exist.
    fn index(&self, key: &'a K) -> (r: &V)
        ensures
            exists|i: int| first_key_at(self@, key, i) && *r == self@[i].1,
    {
        let i = self.position(key).unwrap();
        &self.0[i].1
    }
}

impl<'a, K: PartialEq, V, const N: usize> vstd::std_specs::core::IndexSpecImpl<&'a K> for SmallMap<K, V, N> {
    open spec fn index_req(&self, key: &&'a K) -> bool {
        K::obeys_eq_spec() && !key_absent(self@, *key)
    }
}

} // verus!
