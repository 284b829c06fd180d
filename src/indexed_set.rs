use vstd::prelude::*;
use vstd::laws_cmp::obeys_cmp;
use vstd::std_specs::cmp::{OrdSpec, PartialEqSpec};
use crate::capacity::{vec_reserve_exact, vec_shrink_to, vec_shrink_to_fit, vec_try_reserve_exact};
use crate::retain::{kept, lemma_kept_step};
use crate::order::{after, ascending, lemma_cmp_agrees, lemma_order, lemma_swap_multiset, slice_swap};

verus! {

/// Position `i` holds the first element equal to `value`.
pub open spec fn first_at<T: PartialEq>(s: Seq<T>, value: &T, i: int) -> bool {
    &&& 0 <= i < s.len()
    &&& s[i].eq_spec(value)
    &&& forall|j: int| 0 <= j < i ==> !(#[trigger] s[j]).eq_spec(value)
}

/// No element equals `value`.
pub open spec fn absent<T: PartialEq>(s: Seq<T>, value: &T) -> bool {
    forall|j: int| 0 <= j < s.len() ==> !(#[trigger] s[j]).eq_spec(value)
}

/// `s` after pushing `v`: an equal element, the first one, leaves its place,
/// and `v` goes to the end.
pub open spec fn pushed_value<T: PartialEq>(s: Seq<T>, v: T) -> Seq<T> {
    if exists|i: int| first_at(s, &v, i) {
        s.remove(choose|i: int| first_at(s, &v, i)).push(v)
    } else {
        s.push(v)
    }
}

/// `s` after pushing the elements of `vs` in order.
pub open spec fn pushed_values<T: PartialEq>(s: Seq<T>, vs: Seq<T>) -> Seq<T>
    decreases vs.len(),
{
    if vs.len() == 0 {
        s
    } else {
        pushed_value(pushed_values(s, vs.drop_last()), vs.last())
    }
}

/// Only one position holds the first element equal to a value.
pub proof fn lemma_first_unique<T: PartialEq>(s: Seq<T>, value: &T, i: int, j: int)
    requires
        first_at(s, value, i),
        first_at(s, value, j),
    ensures
        i == j,
{
    if i < j {
        assert(!s[i].eq_spec(value));
    } else if j < i {
        assert(!s[j].eq_spec(value));
    }
}

/// Where no element is equal, no position holds a first equal element.
pub proof fn lemma_absent_no_first_at<T: PartialEq>(s: Seq<T>, value: &T)
    requires
        absent(s, value),
    ensures
        !exists|i: int| first_at(s, value, i),
{
    assert forall|i: int| !first_at(s, value, i) by {
        if 0 <= i < s.len() {
            assert(!s[i].eq_spec(value));
        }
    }
}

/// Elements in an order of their own, each reachable by position and by
/// value; pushing or inserting a value removes an equal one first.
pub struct IndexedSet<T> {
    vec: Vec<T>,
}

impl<T> View for IndexedSet<T> {
    type V = Seq<T>;

    closed spec fn view(&self) -> Seq<T> {
        self.vec@
    }
}

impl<T> std::ops::Deref for IndexedSet<T> {
    type Target = Vec<T>;

    fn deref(&self) -> (r: &Vec<T>)
        ensures
            r@ == self@,
    {
        &self.vec
    }
}

impl<T> Default for IndexedSet<T> {
    fn default() -> (r: Self)
        ensures
            r@ == Seq::<T>::empty(),
    {
        IndexedSet { vec: Vec::new() }
    }
}

impl<T> IndexedSet<T> {
    pub fn new() -> (r: Self)
        ensures
            r@ == Seq::<T>::empty(),
    {
        IndexedSet { vec: Vec::new() }
    }

    pub fn with_capacity(capacity: usize) -> (r: Self)
        ensures
            r@ == Seq::<T>::empty(),
    {
        IndexedSet { vec: Vec::with_capacity(capacity) }
    }

    pub fn len(&self) -> (r: usize)
        ensures
            r == self@.len(),
    {
        self.vec.len()
    }

    pub fn reserve(&mut self, additional: usize)
        ensures
            final(self)@ == old(self)@,
    {
        self.vec.reserve(additional)
    }

    pub fn reserve_exact(&mut self, additional: usize)
        ensures
            final(self)@ == old(self)@,
    {
        vec_reserve_exact(&mut self.vec, additional)
    }

    pub fn try_reserve(&mut self, additional: usize) -> (r: Result<(), std::collections::TryReserveError>)
        ensures
            final(self)@ == old(self)@,
    {
        self.vec.try_reserve(additional)
    }

    pub fn try_reserve_exact(&mut self, additional: usize) -> (r: Result<(), std::collections::TryReserveError>)
        ensures
            final(self)@ == old(self)@,
    {
        vec_try_reserve_exact(&mut self.vec, additional)
    }

    pub fn shrink_to_fit(&mut self)
        ensures
            final(self)@ == old(self)@,
    {
        vec_shrink_to_fit(&mut self.vec)
    }

    pub fn shrink_to(&mut self, min_capacity: usize)
        ensures
            final(self)@ == old(self)@,
    {
        vec_shrink_to(&mut self.vec, min_capacity)
    }

    /// Keeps the first `len` elements.
    pub fn truncate(&mut self, len: usize)
        ensures
            len < old(self)@.len() ==> final(self)@ == old(self)@.subrange(0, len as int),
            len >= old(self)@.len() ==> final(self)@ == old(self)@,
    {
        self.vec.truncate(len)
    }

    /// Removes the element at `index`, moving the last one into its place.
    pub fn swap_remove(&mut self, index: usize) -> (r: T)
        requires
            index < old(self)@.len(),
        ensures
            r == old(self)@[index as int],
            final(self)@ == old(self)@.update(index as int, old(self)@.last()).drop_last(),
    {
        self.vec.swap_remove(index)
    }

    /// Takes out the elements at positions `start` up to, not including, `end`.
    pub fn drain(&mut self, start: usize, end: usize) -> (r: Vec<T>)
        requires
            start <= end <= old(self)@.len(),
        ensures
            r@ == old(self)@.subrange(start as int, end as int),
            final(self)@ == old(self)@.subrange(0, start as int) + old(self)@.subrange(end as int, old(self)@.len() as int),
    {
        let mut tail = self.vec.split_off(end);
        let taken = self.vec.split_off(start);
        self.vec.append(&mut tail);
        taken
    }

    pub fn clear(&mut self)
        ensures
            final(self)@ == Seq::<T>::empty(),
    {
        self.vec.clear();
    }

    pub fn pop(&mut self) -> (r: Option<T>)
        ensures
            old(self)@.len() == 0 ==> r.is_none() && final(self)@ == old(self)@,
            old(self)@.len() > 0 ==> r == Some(old(self)@.last()) && final(self)@ == old(self)@.drop_last(),
    {
        self.vec.pop()
    }

    /// Keeps, in order, the elements for which `f` holds; `f` is called once
    /// per element, in order.
    pub fn retain<F: Fn(&T) -> bool>(&mut self, f: F)
        requires
            forall|x: &T| f.requires((x,)),
        ensures
            exists|keep: Seq<bool>|
                #![trigger kept(old(self)@, keep)]
                {
                    &&& keep.len() == old(self)@.len()
                    &&& forall|i: int| 0 <= i < keep.len() ==> f.ensures((&old(self)@[i],), #[trigger] keep[i])
                    &&& final(self)@ == kept(old(self)@, keep)
                },
    {
        let ghost before = self.vec@;
        let mut rest: Vec<T> = Vec::new();
        while self.vec.len() > 0
            invariant
                self.vec@ + rest@.reverse() == before,
            decreases self.vec@.len(),
        {
            let p = self.vec.pop().unwrap();
            rest.push(p);
            proof {
                assert(self.vec@ + rest@.reverse() =~= before);
            }
        }
        proof {
            assert(rest@.reverse() =~= before);
        }
        let n = rest.len();
        let mut keep: Vec<bool> = Vec::new();
        let mut i: usize = 0;
        while i < n
            invariant
                i <= n,
                n == before.len(),
                rest@.len() == n - i,
                forall|k: int| 0 <= k < n - i ==> #[trigger] rest@[k] == before[n - 1 - k],
                keep@.len() == i,
                forall|x: &T| f.requires((x,)),
                forall|k: int| 0 <= k < i ==> f.ensures((&before[k],), #[trigger] keep@[k]),
                self.vec@ == kept(before.take(i as int), keep@),
            decreases n - i,
        {
            let p = rest.pop().unwrap();
            proof {
                assert(p == before[i as int]);
            }
            let b = f(&p);
            let ghost decided = keep@;
            keep.push(b);
            proof {
                let full = keep@ + Seq::new((n - i - 1) as nat, |j: int| false);
                assert(full.take(i as int) =~= decided);
                assert(full.take(i as int + 1) =~= keep@);
                assert(full[i as int] == b);
                lemma_kept_step(before, full, i as int);
            }
            if b {
                self.vec.push(p);
            }
            i = i + 1;
        }
        proof {
            assert(before.take(n as int) =~= before);
            assert(before == old(self)@);
            assert(self@ == kept(old(self)@, keep@));
            assert(forall|i: int| 0 <= i < keep@.len() ==> f.ensures((&old(self)@[i],), #[trigger] keep@[i]));
        }
    }

    /// Removes the element at `index`, shifting the later ones down.
    pub fn remove_at(&mut self, index: usize) -> (r: Option<T>)
        ensures
            index >= old(self)@.len() ==> r.is_none() && final(self)@ == old(self)@,
            index < old(self)@.len() ==> r == Some(old(self)@[index as int]) && final(self)@ == old(self)@.remove(index as int),
    {
        if index >= self.vec.len() {
            None
        } else {
            Some(self.vec.remove(index))
        }
    }

    /// Exchanges the elements at `idx_a` and `idx_b`.
    pub fn swap(&mut self, idx_a: usize, idx_b: usize)
        requires
            idx_a < old(self)@.len(),
            idx_b < old(self)@.len(),
        ensures
            final(self)@ == old(self)@.update(idx_a as int, old(self)@[idx_b as int]).update(idx_b as int, old(self)@[idx_a as int]),
    {
        slice_swap(self.vec.as_mut_slice(), idx_a, idx_b);
    }

    /// Reorders the elements by `compare`, selecting for each position in
    /// turn the element that `compare` ranks first among those left, and
    /// moving elements only by exchanges, so that the same elements remain.
    pub fn sort_by<F: Fn(&T, &T) -> std::cmp::Ordering>(&mut self, compare: F)
        requires
            forall|a: &T, b: &T| compare.requires((a, b)),
        ensures
            final(self)@.len() == old(self)@.len(),
            final(self)@.to_multiset() == old(self)@.to_multiset(),
    {
        let n = self.vec.len();
        let mut i: usize = 0;
        while i < n
            invariant
                i <= n,
                n == self.vec@.len(),
                self.vec@.to_multiset() == old(self)@.to_multiset(),
                forall|a: &T, b: &T| compare.requires((a, b)),
            decreases n - i,
        {
            let mut m: usize = i;
            let mut j: usize = i + 1;
            while j < n
                invariant
                    i <= m < j <= n || (m == i && j == i + 1 && i < n),
                    n == self.vec@.len(),
                    forall|a: &T, b: &T| compare.requires((a, b)),
                decreases n - j,
            {
                let o = compare(&self.vec[j], &self.vec[m]);
                if matches!(o, std::cmp::Ordering::Less) {
                    m = j;
                }
                j = j + 1;
            }
            let ghost before = self.vec@;
            slice_swap(self.vec.as_mut_slice(), i, m);
            proof {
                lemma_swap_multiset(before, i as int, m as int);
            }
            i = i + 1;
        }
    }
}

impl<T: PartialEq> IndexedSet<T> {
    /// The position of the first element equal to `value`.
    pub fn index_of(&self, value: &T) -> (r: Option<usize>)
        ensures
            r matches Some(i) ==> i < self@.len(),
            T::obeys_eq_spec() ==> match r {
                Some(i) => first_at(self@, value, i as int),
                None => absent(self@, value),
            },
    {
        let mut i: usize = 0;
        while i < self.vec.len()
            invariant
                i <= self.vec@.len(),
                T::obeys_eq_spec() ==> forall|j: int| 0 <= j < i ==> !(#[trigger] self.vec@[j]).eq_spec(value),
            decreases self.vec@.len() - i,
        {
            if self.vec[i].eq(value) {
                return Some(i);
            }
            i = i + 1;
        }
        None
    }

    /// Removes the first element equal to `value` and gives back where it was.
    pub fn remove(&mut self, value: &T) -> (r: Option<usize>)
        ensures
            r.is_none() ==> final(self)@ == old(self)@,
            r matches Some(i) ==> i < old(self)@.len() && final(self)@ == old(self)@.remove(i as int),
            T::obeys_eq_spec() ==> match r {
                Some(i) => first_at(old(self)@, value, i as int),
                None => absent(old(self)@, value),
            },
    {
        match self.index_of(value) {
            Some(index) => {
                self.vec.remove(index);
                Some(index)
            },
            None => None,
        }
    }

    /// Appends `value`; an equal element leaves its place first. Whether one
    /// did comes back.
    pub fn push(&mut self, value: T) -> (r: bool)
        ensures
            !r ==> final(self)@ == old(self)@.push(value),
            T::obeys_eq_spec() ==> final(self)@ == pushed_value(old(self)@, value),
            T::obeys_eq_spec() ==> r == !absent(old(self)@, &value),
    {
        let removed = self.remove(&value);
        let ghost mid = self.vec@;
        self.vec.push(value);
        proof {
            if T::obeys_eq_spec() {
                if removed is Some {
                    let i = removed->0 as int;
                    let c = choose|j: int| first_at(old(self)@, &value, j);
                    lemma_first_unique(old(self)@, &value, i, c);
                    assert(self@ =~= old(self)@.remove(c).push(value));
                } else {
                    lemma_absent_no_first_at(old(self)@, &value);
                }
            }
        }
        removed.is_some()
    }

    /// Puts `value` at `index`; an equal element leaves its place first, and
    /// then `value` goes to `index - 1`. Whether one did comes back.
    pub fn insert(&mut self, value: T, index: usize) -> (r: bool)
        requires
            T::obeys_eq_spec(),
            absent(old(self)@, &value) ==> index <= old(self)@.len(),
            !absent(old(self)@, &value) ==> 1 <= index <= old(self)@.len(),
        ensures
            r == !absent(old(self)@, &value),
            !r ==> final(self)@ == old(self)@.insert(index as int, value),
            r ==> exists|i: int| first_at(old(self)@, &value, i) && final(self)@ == old(self)@.remove(i).insert(index - 1, value),
    {
        let removed = self.remove(&value);
        let index = if removed.is_some() {
            index - 1
        } else {
            index
        };
        self.vec.insert(index, value);
        removed.is_some()
    }

    /// Replaces the element at `index` by what `f` makes of it, as `insert`
    /// at `index` would place it.
    pub fn update_at<F: FnOnce(T) -> T>(&mut self, index: usize, f: F)
        requires
            T::obeys_eq_spec(),
            index < old(self)@.len(),
            f.requires((old(self)@[index as int],)),
            index == 0 ==> forall|y: T| f.ensures((old(self)@[0],), y) ==> absent(old(self)@.remove(0), &y),
        ensures
            exists|y: T|
                #![trigger f.ensures((old(self)@[index as int],), y)]
                {
                    &&& f.ensures((old(self)@[index as int],), y)
                    &&& absent(old(self)@.remove(index as int), &y) ==> final(self)@ == old(self)@.remove(index as int).insert(index as int, y)
                    &&& !absent(old(self)@.remove(index as int), &y) ==> exists|i: int|
                        first_at(old(self)@.remove(index as int), &y, i) && final(self)@ == old(self)@.remove(index as int).remove(i).insert(index - 1, y)
                },
    {
        let old_value = self.vec.remove(index);
        let new_value = f(old_value);
        let ghost made = new_value;
        let replaced = self.insert(new_value, index);
        proof {
            assert(f.ensures((old(self)@[index as int],), made));
        }
    }

    /// Pushes each element of `other` in order, leaving `other` empty.
    pub fn append(&mut self, other: &mut Self)
        ensures
            T::obeys_eq_spec() ==> final(self)@ == pushed_values(old(self)@, old(other)@),
            final(other)@ == Seq::<T>::empty(),
    {
        let ghost given = other.vec@;
        let mut rest: Vec<T> = Vec::new();
        while other.vec.len() > 0
            invariant
                other.vec@ + rest@.reverse() == given,
            decreases other.vec@.len(),
        {
            let p = other.vec.pop().unwrap();
            rest.push(p);
            proof {
                assert(other.vec@ + rest@.reverse() =~= given);
            }
        }
        let ghost done: Seq<T> = Seq::empty();
        proof {
            assert(rest@.reverse() =~= given);
            assert(done + rest@.reverse() =~= given);
        }
        while rest.len() > 0
            invariant
                done + rest@.reverse() == given,
                other.vec@ == Seq::<T>::empty(),
                T::obeys_eq_spec() ==> self@ == pushed_values(old(self)@, done),
            decreases rest@.len(),
        {
            let p = rest.pop().unwrap();
            proof {
                assert(done.push(p) + rest@.reverse() =~= given);
                assert(done.push(p).drop_last() =~= done);
            }
            let ghost q = p;
            let replaced = self.push(p);
            proof {
                done = done.push(q);
            }
        }
        proof {
            assert(done =~= given);
        }
    }

    /// A set holding the elements of `values`, pushed in order.
    pub fn from_vec(values: Vec<T>) -> (r: Self)
        ensures
            T::obeys_eq_spec() ==> r@ == pushed_values(Seq::<T>::empty(), values@),
    {
        let mut r = IndexedSet::new();
        let mut other = IndexedSet { vec: values };
        r.append(&mut other);
        r
    }
}

impl<T: Ord> IndexedSet<T> {
    /// Sorts the elements, moving them only by exchanges.
    pub fn sort(&mut self)
        requires
            obeys_cmp::<T>(),
        ensures
            final(self)@.len() == old(self)@.len(),
            final(self)@.to_multiset() == old(self)@.to_multiset(),
            ascending(final(self)@),
    {
        proof {
            lemma_cmp_agrees::<T>();
        }
        let n = self.vec.len();
        let mut i: usize = 0;
        while i < n
            invariant
                i <= n,
                n == self.vec@.len(),
                obeys_cmp::<T>(),
                T::obeys_cmp_spec(),
                self.vec@.to_multiset() == old(self)@.to_multiset(),
                forall|a: int, b: int| 0 <= a < b < i ==> !after(#[trigger] self.vec@[a], #[trigger] self.vec@[b]),
                forall|a: int, b: int| 0 <= a < i <= b < n ==> !after(#[trigger] self.vec@[a], #[trigger] self.vec@[b]),
            decreases n - i,
        {
            let mut m: usize = i;
            let mut j: usize = i + 1;
            proof {
                lemma_order(self.vec@[i as int], self.vec@[i as int], self.vec@[i as int]);
            }
            while j < n
                invariant
                    i <= m < j <= n,
                    n == self.vec@.len(),
                    obeys_cmp::<T>(),
                    T::obeys_cmp_spec(),
                    forall|q: int| i <= q < j ==> !after(self.vec@[m as int], #[trigger] self.vec@[q]),
                decreases n - j,
            {
                let less = matches!(self.vec[j].cmp(&self.vec[m]), std::cmp::Ordering::Less);
                proof {
                    lemma_order(self.vec@[j as int], self.vec@[m as int], self.vec@[j as int]);
                }
                if less {
                    proof {
                        assert forall|q: int| i <= q < j + 1 implies !after(self.vec@[j as int], #[trigger] self.vec@[q]) by {
                            lemma_order(self.vec@[j as int], self.vec@[m as int], self.vec@[q]);
                        }
                    }
                    m = j;
                }
                j = j + 1;
            }
            let ghost before = self.vec@;
            slice_swap(self.vec.as_mut_slice(), i, m);
            proof {
                lemma_swap_multiset(before, i as int, m as int);
            }
            i = i + 1;
        }
    }
}

impl<T> std::ops::Index<usize> for IndexedSet<T> {
    type Output = T;

    /// The element at `index`, which must exist.
    fn index(&self, index: usize) -> (r: &T)
        ensures
            *r == self@[index as int],
    {
        &self.vec[index]
    }
}

impl<T> vstd::std_specs::core::IndexSpecImpl<usize> for IndexedSet<T> {
    open spec fn index_req(&self, index: &usize) -> bool {
        *index < self@.len()
    }
}

} // verus!
