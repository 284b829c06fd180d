use vstd::prelude::*;
use vstd::laws_cmp::obeys_cmp;
use vstd::std_specs::cmp::{OrdSpec, PartialEqSpec};
use crate::capacity::{vec_reserve_exact, vec_shrink_to, vec_shrink_to_fit, vec_try_reserve_exact};
use crate::retain::{kept, lemma_kept_step};
use crate::order::{after, ascending, lemma_cmp_agrees, lemma_order, lemma_swap_multiset, slice_swap};

verus! {

/// Position `i` holds the first pair whose key equals `key`.
pub open spec fn first_key_at<K: PartialEq, V>(s: Seq<(K, V)>, key: &K, i: int) -> bool {
    &&& 0 <= i < s.len()
    &&& s[i].0.eq_spec(key)
    &&& forall|j: int| 0 <= j < i ==> !(#[trigger] s[j]).0.eq_spec(key)
}

/// No pair has a key equal to `key`.
pub open spec fn key_absent<K: PartialEq, V>(s: Seq<(K, V)>, key: &K) -> bool {
    forall|j: int| 0 <= j < s.len() ==> !(#[trigger] s[j]).0.eq_spec(key)
}

/// The first elements of the pairs.
pub open spec fn pair_keys<K, V>(s: Seq<(K, V)>) -> Seq<K> {
    s.map_values(|p: (K, V)| p.0)
}

/// The second elements of the pairs.
pub open spec fn pair_values<K, V>(s: Seq<(K, V)>) -> Seq<V> {
    s.map_values(|p: (K, V)| p.1)
}

/// `s` after pushing `p`: a pair with an equal key, the first one, leaves
/// its place, and `p` goes to the end.
pub open spec fn pushed<K: PartialEq, V>(s: Seq<(K, V)>, p: (K, V)) -> Seq<(K, V)> {
    if exists|i: int| first_key_at(s, &p.0, i) {
        s.remove(choose|i: int| first_key_at(s, &p.0, i)).push(p)
    } else {
        s.push(p)
    }
}

/// `s` after pushing the pairs of `ps` in order.
pub open spec fn pushed_all<K: PartialEq, V>(s: Seq<(K, V)>, ps: Seq<(K, V)>) -> Seq<(K, V)>
    decreases ps.len(),
{
    if ps.len() == 0 {
        s
    } else {
        pushed(pushed_all(s, ps.drop_last()), ps.last())
    }
}

/// Only one position holds the first pair with a given key.
pub proof fn lemma_first_key_unique<K: PartialEq, V>(s: Seq<(K, V)>, key: &K, i: int, j: int)
    requires
        first_key_at(s, key, i),
        first_key_at(s, key, j),
    ensures
        i == j,
{
    if i < j {
        assert(!s[i].0.eq_spec(key));
    } else if j < i {
        assert(!s[j].0.eq_spec(key));
    }
}

/// Where no key is equal, no position holds a first equal key.
pub proof fn lemma_absent_no_first<K: PartialEq, V>(s: Seq<(K, V)>, key: &K)
    requires
        key_absent(s, key),
    ensures
        !exists|i: int| first_key_at(s, key, i),
{
    assert forall|i: int| !first_key_at(s, key, i) by {
        if 0 <= i < s.len() {
            assert(!s[i].0.eq_spec(key));
        }
    }
}

/// Key-value pairs in an order of their own, each reachable by position and
/// by key.
pub struct IndexedMap<Key, Val> {
    vec: Vec<(Key, Val)>,
}

impl<Key, Val> View for IndexedMap<Key, Val> {
    type V = Seq<(Key, Val)>;

    closed spec fn view(&self) -> Seq<(Key, Val)> {
        self.vec@
    }
}

impl<Key, Val> std::ops::Deref for IndexedMap<Key, Val> {
    type Target = Vec<(Key, Val)>;

    fn deref(&self) -> (r: &Vec<(Key, Val)>)
        ensures
            r@ == self@,
    {
        &self.vec
    }
}

impl<Key, Val> Default for IndexedMap<Key, Val> {
    fn default() -> (r: Self)
        ensures
            r@ == Seq::<(Key, Val)>::empty(),
    {
        IndexedMap { vec: Vec::new() }
    }
}

impl<Key, Val> IndexedMap<Key, Val> {
    pub fn new() -> (r: Self)
        ensures
            r@ == Seq::<(Key, Val)>::empty(),
    {
        IndexedMap { vec: Vec::new() }
    }

    pub fn with_capacity(capacity: usize) -> (r: Self)
        ensures
            r@ == Seq::<(Key, Val)>::empty(),
    {
        IndexedMap { vec: Vec::with_capacity(capacity) }
    }

    pub fn len(&self) -> (r: usize)
        ensures
            r == self@.len(),
    {
        self.vec.len()
    }

    pub fn reserve(&mut self, additional: usize)
        ensures
            final(self)@ == old(self)@,
    {
        self.vec.reserve(additional)
    }

    pub fn reserve_exact(&mut self, additional: usize)
        ensures
            final(self)@ == old(self)@,
    {
        vec_reserve_exact(&mut self.vec, additional)
    }

    pub fn try_reserve(&mut self, additional: usize) -> (r: Result<(), std::collections::TryReserveError>)
        ensures
            final(self)@ == old(self)@,
    {
        self.vec.try_reserve(additional)
    }

    pub fn try_reserve_exact(&mut self, additional: usize) -> (r: Result<(), std::collections::TryReserveError>)
        ensures
            final(self)@ == old(self)@,
    {
        vec_try_reserve_exact(&mut self.vec, additional)
    }

    pub fn shrink_to_fit(&mut self)
        ensures
            final(self)@ == old(self)@,
    {
        vec_shrink_to_fit(&mut self.vec)
    }

    pub fn shrink_to(&mut self, min_capacity: usize)
        ensures
            final(self)@ == old(self)@,
    {
        vec_shrink_to(&mut self.vec, min_capacity)
    }

    /// Keeps the first `len` pairs.
    pub fn truncate(&mut self, len: usize)
        ensures
            len < old(self)@.len() ==> final(self)@ == old(self)@.subrange(0, len as int),
            len >= old(self)@.len() ==> final(self)@ == old(self)@,
    {
        self.vec.truncate(len)
    }

    /// Removes the pair at `index`, moving the last pair into its place.
    pub fn swap_remove(&mut self, index: usize) -> (r: (Key, Val))
        requires
            index < old(self)@.len(),
        ensures
            r == old(self)@[index as int],
            final(self)@ == old(self)@.update(index as int, old(self)@.last()).drop_last(),
    {
        self.vec.swap_remove(index)
    }

    /// Takes out the pairs at positions `start` up to, not including, `end`.
    pub fn drain(&mut self, start: usize, end: usize) -> (r: Vec<(Key, Val)>)
        requires
            start <= end <= old(self)@.len(),
        ensures
            r@ == old(self)@.subrange(start as int, end as int),
            final(self)@ == old(self)@.subrange(0, start as int) + old(self)@.subrange(end as int, old(self)@.len() as int),
    {
        let mut tail = self.vec.split_off(end);
        let taken = self.vec.split_off(start);
        self.vec.append(&mut tail);
        taken
    }

    pub fn clear(&mut self)
        ensures
            final(self)@ == Seq::<(Key, Val)>::empty(),
    {
        self.vec.clear();
    }

    pub fn pop(&mut self) -> (r: Option<(Key, Val)>)
        ensures
            old(self)@.len() == 0 ==> r.is_none() && final(self)@ == old(self)@,
            old(self)@.len() > 0 ==> r == Some(old(self)@.last()) && final(self)@ == old(self)@.drop_last(),
    {
        self.vec.pop()
    }

    /// Keeps, in order, the pairs for which `f` holds; `f` is called once
    /// per pair, in order.
    pub fn retain<F: Fn(&Key, &Val) -> bool>(&mut self, f: F)
        requires
            forall|k: &Key, v: &Val| f.requires((k, v)),
        ensures
            exists|keep: Seq<bool>|
                #![trigger kept(old(self)@, keep)]
                {
                    &&& keep.len() == old(self)@.len()
                    &&& forall|i: int| 0 <= i < keep.len() ==> f.ensures((&old(self)@[i].0, &old(self)@[i].1), #[trigger] keep[i])
                    &&& final(self)@ == kept(old(self)@, keep)
                },
    {
        let ghost before = self.vec@;
        let mut rest: Vec<(Key, Val)> = Vec::new();
        while self.vec.len() > 0
            invariant
                self.vec@ + rest@.reverse() == before,
            decreases self.vec@.len(),
        {
            let p = self.vec.pop().unwrap();
            rest.push(p);
            proof {
                assert(self.vec@ + rest@.reverse() =~= before);
            }
        }
        proof {
            assert(rest@.reverse() =~= before);
        }
        let n = rest.len();
        let mut keep: Vec<bool> = Vec::new();
        let mut i: usize = 0;
        while i < n
            invariant
                i <= n,
                n == before.len(),
                rest@.len() == n - i,
                forall|k: int| 0 <= k < n - i ==> #[trigger] rest@[k] == before[n - 1 - k],
                keep@.len() == i,
                forall|k: &Key, v: &Val| f.requires((k, v)),
                forall|k: int| 0 <= k < i ==> f.ensures((&before[k].0, &before[k].1), #[trigger] keep@[k]),
                self.vec@ == kept(before.take(i as int), keep@),
            decreases n - i,
        {
            let p = rest.pop().unwrap();
            proof {
                assert(p == before[i as int]);
            }
            let b = f(&p.0, &p.1);
            let ghost decided = keep@;
            keep.push(b);
            proof {
                let full = keep@ + Seq::new((n - i - 1) as nat, |j: int| false);
                assert(full.take(i as int) =~= decided);
                assert(full.take(i as int + 1) =~= keep@);
                assert(full[i as int] == b);
                lemma_kept_step(before, full, i as int);
            }
            if b {
                self.vec.push(p);
            }
            i = i + 1;
        }
        proof {
            assert(before.take(n as int) =~= before);
            assert(before == old(self)@);
            assert(self@ == kept(old(self)@, keep@));
            assert(forall|i: int| 0 <= i < keep@.len() ==> f.ensures((&old(self)@[i].0, &old(self)@[i].1), #[trigger] keep@[i]));
        }
    }

    /// The pair at `index`.
    pub fn get(&self, index: usize) -> (r: Option<(&Key, &Val)>)
        ensures
            index < self@.len() ==> r == Some((&self@[index as int].0, &self@[index as int].1)),
            index >= self@.len() ==> r.is_none(),
    {
        if index < self.vec.len() {
            let p = &self.vec[index];
            Some((&p.0, &p.1))
        } else {
            None
        }
    }

    /// The value at `index`.
    pub fn value_at(&self, index: usize) -> (r: Option<&Val>)
        ensures
            index < self@.len() ==> r == Some(&self@[index as int].1),
            index >= self@.len() ==> r.is_none(),
    {
        if index < self.vec.len() {
            Some(&self.vec[index].1)
        } else {
            None
        }
    }

    /// The value at `index`, open for change in place.
    pub fn value_at_mut(&mut self, index: usize) -> (r: Option<&mut Val>)
        ensures
            index >= old(self)@.len() ==> r.is_none() && final(self)@ == old(self)@,
            index < old(self)@.len() ==> r.is_some() && *r.unwrap() == old(self)@[index as int].1
                && final(self)@ == old(self)@.update(index as int, (old(self)@[index as int].0, *final(r.unwrap()))),
    {
        if index < self.vec.len() {
            Some(&mut self.vec[index].1)
        } else {
            None
        }
    }

    /// The key at `index`.
    pub fn key_at(&self, index: usize) -> (r: Option<&Key>)
        ensures
            index < self@.len() ==> r == Some(&self@[index as int].0),
            index >= self@.len() ==> r.is_none(),
    {
        if index < self.vec.len() {
            Some(&self.vec[index].0)
        } else {
            None
        }
    }

    /// Removes the pair at `index`, shifting the later ones down.
    pub fn remove_at(&mut self, index: usize) -> (r: Option<(Key, Val)>)
        ensures
            index >= old(self)@.len() ==> r.is_none() && final(self)@ == old(self)@,
            index < old(self)@.len() ==> r == Some(old(self)@[index as int]) && final(self)@ == old(self)@.remove(index as int),
    {
        if index >= self.vec.len() {
            None
        } else {
            Some(self.vec.remove(index))
        }
    }

    /// Exchanges the pairs at `idx_a` and `idx_b`.
    pub fn swap(&mut self, idx_a: usize, idx_b: usize)
        requires
            idx_a < old(self)@.len(),
            idx_b < old(self)@.len(),
        ensures
            final(self)@ == old(self)@.update(idx_a as int, old(self)@[idx_b as int]).update(idx_b as int, old(self)@[idx_a as int]),
    {
        slice_swap(self.vec.as_mut_slice(), idx_a, idx_b);
    }

    /// The keys, in order.
    pub fn keys(&self) -> (r: Vec<&Key>)
        ensures
            r@.len() == self@.len(),
            forall|i: int| 0 <= i < r@.len() ==> *r@[i] == self@[i].0,
    {
        let mut r: Vec<&Key> = Vec::new();
        let mut i: usize = 0;
        while i < self.vec.len()
            invariant
                i <= self.vec@.len(),
                r@.len() == i,
                forall|k: int| 0 <= k < i ==> *r@[k] == self.vec@[k].0,
            decreases self.vec@.len() - i,
        {
            r.push(&self.vec[i].0);
            i = i + 1;
        }
        r
    }

    /// The values, in order.
    pub fn values(&self) -> (r: Vec<&Val>)
        ensures
            r@.len() == self@.len(),
            forall|i: int| 0 <= i < r@.len() ==> *r@[i] == self@[i].1,
    {
        let mut r: Vec<&Val> = Vec::new();
        let mut i: usize = 0;
        while i < self.vec.len()
            invariant
                i <= self.vec@.len(),
                r@.len() == i,
                forall|k: int| 0 <= k < i ==> *r@[k] == self.vec@[k].1,
            decreases self.vec@.len() - i,
        {
            r.push(&self.vec[i].1);
            i = i + 1;
        }
        r
    }

    /// Reorders the pairs by `compare` on their keys, selecting for each
    /// position in turn the pair that `compare` ranks first among those left,
    /// and moving pairs only by exchanges, so that the same pairs remain.
    pub fn sort_by<F: Fn(&Key, &Key) -> std::cmp::Ordering>(&mut self, compare: F)
        requires
            forall|a: &Key, b: &Key| compare.requires((a, b)),
        ensures
            final(self)@.len() == old(self)@.len(),
            final(self)@.to_multiset() == old(self)@.to_multiset(),
    {
        let n = self.vec.len();
        let mut i: usize = 0;
        while i < n
            invariant
                i <= n,
                n == self.vec@.len(),
                self.vec@.to_multiset() == old(self)@.to_multiset(),
                forall|a: &Key, b: &Key| compare.requires((a, b)),
            decreases n - i,
        {
            let mut m: usize = i;
            let mut j: usize = i + 1;
            while j < n
                invariant
                    i <= m < j <= n || (m == i && j == i + 1 && i < n),
                    n == self.vec@.len(),
                    forall|a: &Key, b: &Key| compare.requires((a, b)),
                decreases n - j,
            {
                let o = compare(&self.vec[j].0, &self.vec[m].0);
                if matches!(o, std::cmp::Ordering::Less) {
                    m = j;
                }
                j = j + 1;
            }
            let ghost before = self.vec@;
            slice_swap(self.vec.as_mut_slice(), i, m);
            proof {
                lemma_swap_multiset(before, i as int, m as int);
            }
            i = i + 1;
        }
    }
}

impl<Key: PartialEq, Val> IndexedMap<Key, Val> {
    /// The position of the first pair whose key equals `key`.
    pub fn key_index(&self, key: &Key) -> (r: Option<usize>)
        ensures
            r matches Some(i) ==> i < self@.len(),
            Key::obeys_eq_spec() ==> match r {
                Some(i) => first_key_at(self@, key, i as int),
                None => key_absent(self@, key),
            },
    {
        let mut i: usize = 0;
        while i < self.vec.len()
            invariant
                i <= self.vec@.len(),
                Key::obeys_eq_spec() ==> forall|j: int| 0 <= j < i ==> !(#[trigger] self.vec@[j]).0.eq_spec(key),
            decreases self.vec@.len() - i,
        {
            if self.vec[i].0.eq(key) {
                return Some(i);
            }
            i = i + 1;
        }
        None
    }

    pub fn contains_key(&self, key: &Key) -> (r: bool)
        ensures
            Key::obeys_eq_spec() ==> r == !key_absent(self@, key),
    {
        match self.key_index(key) {
            Some(i) => true,
            None => false,
        }
    }

    /// The value of the first pair whose key equals `key`.
    pub fn get_value(&self, key: &Key) -> (r: Option<&Val>)
        ensures
            Key::obeys_eq_spec() ==> match r {
                Some(v) => exists|i: int| first_key_at(self@, key, i) && *v == self@[i].1,
                None => key_absent(self@, key),
            },
    {
        match self.key_index(key) {
            Some(i) => Some(&self.vec[i].1),
            None => None,
        }
    }

    /// The value of the first pair whose key equals `key`, open for change
    /// in place.
    pub fn get_value_mut(&mut self, key: &Key) -> (r: Option<&mut Val>)
        ensures
            r.is_none() ==> final(self)@ == old(self)@,
            Key::obeys_eq_spec() ==> match r {
                Some(v) => exists|i: int|
                    first_key_at(old(self)@, key, i) && *v == old(self)@[i].1
                        && final(self)@ == old(self)@.update(i, (old(self)@[i].0, *final(v))),
                None => key_absent(old(self)@, key),
            },
    {
        match self.key_index(key) {
            Some(i) => Some(&mut self.vec[i].1),
            None => None,
        }
    }

    /// The pair at `index`, with its value open for change in place.
    pub fn get_mut(&mut self, index: usize) -> (r: Option<(&Key, &mut Val)>)
        ensures
            index >= old(self)@.len() ==> r.is_none() && final(self)@ == old(self)@,
            index < old(self)@.len() ==> r.is_some() && *r.unwrap().0 == old(self)@[index as int].0
                && *r.unwrap().1 == old(self)@[index as int].1
                && final(self)@ == old(self)@.update(index as int, (old(self)@[index as int].0, *final(r.unwrap().1))),
    {
        if index < self.vec.len() {
            let p = &mut self.vec[index];
            Some((&p.0, &mut p.1))
        } else {
            None
        }
    }

    /// Removes the first pair whose key equals `key` and gives back its value.
    pub fn remove(&mut self, key: &Key) -> (r: Option<Val>)
        ensures
            r.is_none() ==> final(self)@ == old(self)@,
            Key::obeys_eq_spec() ==> match r {
                Some(v) => exists|i: int|
                    first_key_at(old(self)@, key, i) && v == old(self)@[i].1 && final(self)@ == old(self)@.remove(i),
                None => key_absent(old(self)@, key),
            },
    {
        match self.key_index(key) {
            Some(i) => Some(self.vec.remove(i).1),
            None => None,
        }
    }
    /// Appends the pair; a pair with an equal key leaves its place first, and
    /// its value comes back.
    pub fn push(&mut self, key: Key, value: Val) -> (r: Option<Val>)
        ensures
            r.is_none() ==> final(self)@ == old(self)@.push((key, value)),
            Key::obeys_eq_spec() ==> final(self)@ == pushed(old(self)@, (key, value)),
            Key::obeys_eq_spec() ==> match r {
                Some(v) => exists|i: int| first_key_at(old(self)@, &key, i) && v == old(self)@[i].1,
                None => key_absent(old(self)@, &key),
            },
    {
        let removed = self.remove(&key);
        let ghost mid = self.vec@;
        self.vec.push((key, value));
        proof {
            if Key::obeys_eq_spec() {
                if removed is Some {
                    let v = removed->0;
                    let i = choose|i: int|
                        first_key_at(old(self)@, &key, i) && v == old(self)@[i].1
                            && mid == old(self)@.remove(i);
                    assert(first_key_at(old(self)@, &key, i));
                    let c = choose|i: int| first_key_at(old(self)@, &key, i);
                    lemma_first_key_unique(old(self)@, &key, i, c);
                    let p = (key, value);
                    assert(p.0 == key);
                    assert(exists|j: int| first_key_at(old(self)@, &p.0, j));
                    assert(c == choose|j: int| first_key_at(old(self)@, &p.0, j));
                    assert(self@ =~= old(self)@.remove(c).push(p));
                    assert(self@ == pushed(old(self)@, (key, value)));
                } else {
                    lemma_absent_no_first(old(self)@, &key);
                    assert(self@ == pushed(old(self)@, (key, value)));
                }
            }
        }
        removed
    }

    /// Puts the pair at `index`; a pair with an equal key leaves its place
    /// first, its value comes back, and then the pair goes to `index - 1`.
    pub fn insert(&mut self, key: Key, value: Val, index: usize) -> (r: Option<Val>)
        requires
            Key::obeys_eq_spec(),
            key_absent(old(self)@, &key) ==> index <= old(self)@.len(),
            !key_absent(old(self)@, &key) ==> 1 <= index <= old(self)@.len(),
        ensures
            match r {
                Some(v) => exists|i: int|
                    first_key_at(old(self)@, &key, i) && v == old(self)@[i].1
                        && final(self)@ == old(self)@.remove(i).insert(index - 1, (key, value)),
                None => key_absent(old(self)@, &key) && final(self)@ == old(self)@.insert(index as int, (key, value)),
            },
    {
        let removed = self.remove(&key);
        let index = if removed.is_some() {
            index - 1
        } else {
            index
        };
        self.vec.insert(index, (key, value));
        removed
    }

    /// Pushes each pair of `other` in order, leaving `other` empty.
    pub fn append(&mut self, other: &mut Self)
        ensures
            Key::obeys_eq_spec() ==> final(self)@ == pushed_all(old(self)@, old(other)@),
            final(other)@ == Seq::<(Key, Val)>::empty(),
    {
        let ghost given = other.vec@;
        let mut rest: Vec<(Key, Val)> = Vec::new();
        while other.vec.len() > 0
            invariant
                other.vec@ + rest@.reverse() == given,
            decreases other.vec@.len(),
        {
            let p = other.vec.pop().unwrap();
            rest.push(p);
            proof {
                assert(other.vec@ + rest@.reverse() =~= given);
            }
        }
        let ghost done: Seq<(Key, Val)> = Seq::empty();
        proof {
            assert(rest@.reverse() =~= given);
            assert(done + rest@.reverse() =~= given);
        }
        while rest.len() > 0
            invariant
                done + rest@.reverse() == given,
                other.vec@ == Seq::<(Key, Val)>::empty(),
                Key::obeys_eq_spec() ==> self@ == pushed_all(old(self)@, done),
            decreases rest@.len(),
        {
            let p = rest.pop().unwrap();
            proof {
                assert(done.push(p) + rest@.reverse() =~= given);
                assert(done.push(p).drop_last() =~= done);
            }
            let replaced = self.push(p.0, p.1);
            proof {
                done = done.push(p);
            }
        }
        proof {
            assert(done =~= given);
        }
    }
    /// A map holding the pairs of `pairs`, pushed in order.
    pub fn from_vec(pairs: Vec<(Key, Val)>) -> (r: Self)
        ensures
            Key::obeys_eq_spec() ==> r@ == pushed_all(Seq::<(Key, Val)>::empty(), pairs@),
    {
        let mut r = IndexedMap::new();
        let mut other = IndexedMap { vec: pairs };
        r.append(&mut other);
        r
    }
}

impl<Key: Ord, Val> IndexedMap<Key, Val> {
    /// Sorts the pairs by key, moving them only by exchanges.
    pub fn sort(&mut self)
        requires
            obeys_cmp::<Key>(),
        ensures
            final(self)@.len() == old(self)@.len(),
            final(self)@.to_multiset() == old(self)@.to_multiset(),
            ascending(pair_keys(final(self)@)),
    {
        proof {
            lemma_cmp_agrees::<Key>();
        }
        let n = self.vec.len();
        let mut i: usize = 0;
        while i < n
            invariant
                i <= n,
                n == self.vec@.len(),
                obeys_cmp::<Key>(),
                Key::obeys_cmp_spec(),
                self.vec@.to_multiset() == old(self)@.to_multiset(),
                forall|a: int, b: int| 0 <= a < b < i ==> !after((#[trigger] self.vec@[a]).0, (#[trigger] self.vec@[b]).0),
                forall|a: int, b: int| 0 <= a < i <= b < n ==> !after((#[trigger] self.vec@[a]).0, (#[trigger] self.vec@[b]).0),
            decreases n - i,
        {
            let mut m: usize = i;
            let mut j: usize = i + 1;
            proof {
                lemma_order(self.vec@[i as int].0, self.vec@[i as int].0, self.vec@[i as int].0);
            }
            while j < n
                invariant
                    i <= m < j <= n,
                    n == self.vec@.len(),
                    obeys_cmp::<Key>(),
                    Key::obeys_cmp_spec(),
                    forall|q: int| i <= q < j ==> !after(self.vec@[m as int].0, (#[trigger] self.vec@[q]).0),
                decreases n - j,
            {
                let less = matches!(self.vec[j].0.cmp(&self.vec[m].0), std::cmp::Ordering::Less);
                proof {
                    lemma_order(self.vec@[j as int].0, self.vec@[m as int].0, self.vec@[j as int].0);
                }
                if less {
                    proof {
                        assert forall|q: int| i <= q < j + 1 implies !after(self.vec@[j as int].0, (#[trigger] self.vec@[q]).0) by {
                            lemma_order(self.vec@[j as int].0, self.vec@[m as int].0, self.vec@[q].0);
                        }
                    }
                    m = j;
                }
                j = j + 1;
            }
            let ghost before = self.vec@;
            slice_swap(self.vec.as_mut_slice(), i, m);
            proof {
                lemma_swap_multiset(before, i as int, m as int);
            }
            i = i + 1;
        }
        proof {
            let s = pair_keys(self@);
            assert forall|a: int, b: int| 0 <= a < b < s.len() implies !after(#[trigger] s[a], #[trigger] s[b]) by {
                assert(s[a] == self.vec@[a].0);
                assert(s[b] == self.vec@[b].0);
            }
        }
    }
}

impl<Key, Val: Ord> IndexedMap<Key, Val> {
    /// Sorts the pairs by value, moving them only by exchanges.
    pub fn sort_by_value(&mut self)
        requires
            obeys_cmp::<Val>(),
        ensures
            final(self)@.len() == old(self)@.len(),
            final(self)@.to_multiset() == old(self)@.to_multiset(),
            ascending(pair_values(final(self)@)),
    {
        proof {
            lemma_cmp_agrees::<Val>();
        }
        let n = self.vec.len();
        let mut i: usize = 0;
        while i < n
            invariant
                i <= n,
                n == self.vec@.len(),
                obeys_cmp::<Val>(),
                Val::obeys_cmp_spec(),
                self.vec@.to_multiset() == old(self)@.to_multiset(),
                forall|a: int, b: int| 0 <= a < b < i ==> !after((#[trigger] self.vec@[a]).1, (#[trigger] self.vec@[b]).1),
                forall|a: int, b: int| 0 <= a < i <= b < n ==> !after((#[trigger] self.vec@[a]).1, (#[trigger] self.vec@[b]).1),
            decreases n - i,
        {
            let mut m: usize = i;
            let mut j: usize = i + 1;
            proof {
                lemma_order(self.vec@[i as int].1, self.vec@[i as int].1, self.vec@[i as int].1);
            }
            while j < n
                invariant
                    i <= m < j <= n,
                    n == self.vec@.len(),
                    obeys_cmp::<Val>(),
                    Val::obeys_cmp_spec(),
                    forall|q: int| i <= q < j ==> !after(self.vec@[m as int].1, (#[trigger] self.vec@[q]).1),
                decreases n - j,
            {
                let less = matches!(self.vec[j].1.cmp(&self.vec[m].1), std::cmp::Ordering::Less);
                proof {
                    lemma_order(self.vec@[j as int].1, self.vec@[m as int].1, self.vec@[j as int].1);
                }
                if less {
                    proof {
                        assert forall|q: int| i <= q < j + 1 implies !after(self.vec@[j as int].1, (#[trigger] self.vec@[q]).1) by {
                            lemma_order(self.vec@[j as int].1, self.vec@[m as int].1, self.vec@[q].1);
                        }
                    }
                    m = j;
                }
                j = j + 1;
            }
            let ghost before = self.vec@;
            slice_swap(self.vec.as_mut_slice(), i, m);
            proof {
                lemma_swap_multiset(before, i as int, m as int);
            }
            i = i + 1;
        }
        proof {
            let s = pair_values(self@);
            assert forall|a: int, b: int| 0 <= a < b < s.len() implies !after(#[trigger] s[a], #[trigger] s[b]) by {
                assert(s[a] == self.vec@[a].1);
                assert(s[b] == self.vec@[b].1);
            }
        }
    }
}

impl<Key, Val> std::ops::Index<usize> for IndexedMap<Key, Val> {
    type Output = Val;

    /// The value at `index`, which must exist.
    fn index(&self, index: usize) -> (r: &Val)
        ensures
            *r == self@[index as int].1,
    {
        &self.vec[index].1
    }
}

impl<Key, Val> vstd::std_specs::core::IndexSpecImpl<usize> for IndexedMap<Key, Val> {
    open spec fn index_req(&self, index: &usize) -> bool {
        *index < self@.len()
    }
}

impl<'a, Key: PartialEq, Val> std::ops::Index<&'a Key> for IndexedMap<Key, Val> {
    type Output = Val;

    /// The value of the first pair whose key equals `key`, which must exist.
    fn index(&self, key: &'a Key) -> (r: &Val)
        ensures
            exists|i: int| first_key_at(self@, key, i) && *r == self@[i].1,
    {
        let i = self.key_index(key).unwrap();
        &self.vec[i].1
    }
}

impl<'a, Key: PartialEq, Val> vstd::std_specs::core::IndexSpecImpl<&'a Key> for IndexedMap<Key, Val> {
    open spec fn index_req(&self, key: &&'a Key) -> bool {
        Key::obeys_eq_spec() && !key_absent(self@, *key)
    }
}

} // verus!
