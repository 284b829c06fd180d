use vstd::prelude::*;
use vstd::std_specs::cmp::PartialEqSpec;
use crate::capacity::{next_power_of_two, vec_capacity, vec_reserve_exact, vec_shrink_to_fit, vec_try_reserve_exact};
use crate::retain::{kept, lemma_kept_step};
use crate::indexed_set::{absent, first_at, lemma_absent_no_first_at, lemma_first_unique};
use crate::small_map::slice_iter_mut;

verus! {

/// `s` after inserting `v`: the first equal element is replaced by `v` in
/// place; with none, `v` goes to the end.
pub open spec fn inserted_value<T: PartialEq>(s: Seq<T>, v: T) -> Seq<T> {
    if exists|i: int| first_at(s, &v, i) {
        s.update(choose|i: int| first_at(s, &v, i), v)
    } else {
        s.push(v)
    }
}

/// `s` after inserting the elements of `vs` in order.
pub open spec fn inserted_values<T: PartialEq>(s: Seq<T>, vs: Seq<T>) -> Seq<T>
    decreases vs.len(),
{
    if vs.len() == 0 {
        s
    } else {
        inserted_value(inserted_values(s, vs.drop_last()), vs.last())
    }
}

/// A set for few elements: they sit in one vector in insertion order, and
/// lookups walk it. `N` is how many elements it is meant to hold without
/// spilling past that many.
#[derive(Clone, Debug)]
pub struct SmallSet<T, const N: usize>(Vec<T>);

impl<T, const N: usize> View for SmallSet<T, N> {
    type V = Seq<T>;

    closed spec fn view(&self) -> Seq<T> {
        self.0@
    }
}

impl<T, const N: usize> Default for SmallSet<T, N> {
    fn default() -> (r: Self)
        ensures
            r@ == Seq::<T>::empty(),
    {
        SmallSet(Vec::with_capacity(N))
    }
}

impl<T: PartialEq, const N: usize> SmallSet<T, N> {
    /// An empty collection with room for `N` entries.
    pub fn new() -> (r: Self)
        ensures
            r@ == Seq::<T>::empty(),
    {
        SmallSet(Vec::with_capacity(N))
    }

    /// An empty collection with room for `n` entries, and never less than `N`.
    pub fn with_capacity(n: usize) -> (r: Self)
        ensures
            r@ == Seq::<T>::empty(),
    {
        if n < N {
            SmallSet(Vec::with_capacity(N))
        } else {
            SmallSet(Vec::with_capacity(n))
        }
    }

    pub fn len(&self) -> (r: usize)
        ensures
            r == self@.len(),
    {
        self.0.len()
    }

    pub fn is_empty(&self) -> (r: bool)
        ensures
            r == (self@.len() == 0),
    {
        self.0.len() == 0
    }

    /// How many elements fit without reallocating; the room for `N` always counts.
    pub fn capacity(&self) -> (r: usize)
        ensures
            r >= self@.len(),
            r >= N,
    {
        let cap = vec_capacity(&self.0);
        if cap < N {
            N
        } else {
            cap
        }
    }

    /// Whether the storage has grown past the `N` elements the set is meant for.
    pub fn spilled(&self) -> (r: bool) {
        vec_capacity(&self.0) > N
    }

    /// Takes out the elements at the positions of `range`.
    pub fn drain(&mut self, range: std::ops::Range<usize>) -> (r: Vec<T>)
        requires
            range.start <= range.end <= old(self)@.len(),
        ensures
            r@ == old(self)@.subrange(range.start as int, range.end as int),
            final(self)@ == old(self)@.subrange(0, range.start as int) + old(self)@.subrange(range.end as int, old(self)@.len() as int),
    {
        let mut tail = self.0.split_off(range.end);
        let taken = self.0.split_off(range.start);
        self.0.append(&mut tail);
        taken
    }

    /// The position of the first element equal to `value`.
    fn position(&self, value: &T) -> (r: Option<usize>)
        ensures
            r matches Some(i) ==> i < self@.len(),
            T::obeys_eq_spec() ==> match r {
                Some(i) => first_at(self@, value, i as int),
                None => absent(self@, value),
            },
    {
        let mut i: usize = 0;
        while i < self.0.len()
            invariant
                i <= self.0@.len(),
                T::obeys_eq_spec() ==> forall|j: int| 0 <= j < i ==> !(#[trigger] self.0@[j]).eq_spec(value),
            decreases self.0@.len() - i,
        {
            if self.0[i].eq(value) {
                return Some(i);
            }
            i = i + 1;
        }
        None
    }

    pub fn contains(&self, value: &T) -> (r: bool)
        ensures
            T::obeys_eq_spec() ==> r == !absent(self@, value),
    {
        self.position(value).is_some()
    }

    /// The element equal to `value`.
    pub fn get(&self, value: &T) -> (r: Option<&T>)
        ensures
            T::obeys_eq_spec() ==> match r {
                Some(v) => exists|i: int| first_at(self@, value, i) && *v == self@[i],
                None => absent(self@, value),
            },
    {
        match self.position(value) {
            Some(i) => Some(&self.0[i]),
            None => None,
        }
    }

    /// The element equal to `value`; where there is none, `value` is
    /// appended first.
    pub fn get_or_insert(&mut self, value: T) -> (r: &T)
        ensures
            T::obeys_eq_spec() ==> (absent(old(self)@, &value) <==> final(self)@ == old(self)@.push(value)),
            T::obeys_eq_spec() && absent(old(self)@, &value) ==> *r == value,
            T::obeys_eq_spec() && !absent(old(self)@, &value) ==> final(self)@ == old(self)@
                && exists|i: int| first_at(old(self)@, &value, i) && *r == old(self)@[i],
    {
        match self.position(&value) {
            Some(i) => &self.0[i],
            None => {
                self.0.push(value);
                let last = self.0.len() - 1;
                proof {
                    if T::obeys_eq_spec() {
                        assert(self.0@.len() == old(self)@.len() + 1);
                    }
                }
                &self.0[last]
            },
        }
    }

    /// The element equal to `value`; where there is none, what `f` makes of
    /// `value` is appended first.
    pub fn get_or_insert_with<F: FnOnce(&T) -> T>(&mut self, value: &T, f: F) -> (r: &T)
        requires
            f.requires((value,)),
        ensures
            T::obeys_eq_spec() && !absent(old(self)@, value) ==> final(self)@ == old(self)@
                && exists|i: int| first_at(old(self)@, value, i) && *r == old(self)@[i],
            T::obeys_eq_spec() && absent(old(self)@, value) ==> f.ensures((value,), *r)
                && final(self)@ == old(self)@.push(*r),
    {
        match self.position(value) {
            Some(i) => &self.0[i],
            None => {
                let made = f(value);
                self.0.push(made);
                let last = self.0.len() - 1;
                &self.0[last]
            },
        }
    }

    /// Adds `value`: the first equal element is replaced by it in place and
    /// comes back; otherwise `value` is appended.
    pub fn insert(&mut self, value: T) -> (r: Option<T>)
        ensures
            r.is_none() ==> final(self)@ == old(self)@.push(value),
            T::obeys_eq_spec() ==> final(self)@ == inserted_value(old(self)@, value),
            T::obeys_eq_spec() ==> match r {
                Some(v) => exists|i: int| first_at(old(self)@, &value, i) && v == old(self)@[i],
                None => absent(old(self)@, &value),
            },
    {
        match self.position(&value) {
            Some(i) => {
                let ghost stored = value;
                let mut value = value;
                std::mem::swap(&mut self.0[i], &mut value);
                proof {
                    if T::obeys_eq_spec() {
                        let c = choose|j: int| first_at(old(self)@, &stored, j);
                        lemma_first_unique(old(self)@, &stored, i as int, c);
                        assert(self@ =~= old(self)@.update(c, stored));
                    }
                }
                Some(value)
            },
            None => {
                self.0.push(value);
                proof {
                    if T::obeys_eq_spec() {
                        lemma_absent_no_first_at(old(self)@, &value);
                    }
                }
                None
            },
        }
    }

    /// Makes room for `additional` more entries; when it has to grow, the
    /// room becomes the next power of two at or above what is needed.
    pub fn reserve(&mut self, additional: usize)
        ensures
            final(self)@ == old(self)@,
    {
        let len = self.0.len();
        let cap = vec_capacity(&self.0);
        if cap - len < additional {
            if additional <= usize::MAX - len {
                let target = next_power_of_two(len + additional);
                vec_reserve_exact(&mut self.0, target - len);
            } else {
                self.0.reserve(additional);
            }
        }
    }

    pub fn try_reserve(&mut self, additional: usize) -> (r: Result<(), std::collections::TryReserveError>)
        ensures
            final(self)@ == old(self)@,
    {
        self.0.try_reserve(additional)
    }

    pub fn reserve_exact(&mut self, additional: usize)
        ensures
            final(self)@ == old(self)@,
    {
        vec_reserve_exact(&mut self.0, additional)
    }

    pub fn try_reserve_exact(&mut self, additional: usize) -> (r: Result<(), std::collections::TryReserveError>)
        ensures
            final(self)@ == old(self)@,
    {
        vec_try_reserve_exact(&mut self.0, additional)
    }

    pub fn shrink_to_fit(&mut self)
        ensures
            final(self)@ == old(self)@,
    {
        vec_shrink_to_fit(&mut self.0)
    }

    pub fn as_slice(&self) -> (r: &[T])
        ensures
            r@ == self@,
    {
        self.0.as_slice()
    }

    pub fn as_mut_slice(&mut self) -> (r: &mut [T])
        ensures
            r@ == old(self)@,
            final(self)@ == final(r)@,
    {
        self.0.as_mut_slice()
    }

    pub fn clear(&mut self)
        ensures
            final(self)@ == Seq::<T>::empty(),
    {
        self.0.clear();
    }

    /// Removes the element equal to `value`, moving the last element into
    /// its place, and gives it back.
    pub fn remove(&mut self, value: &T) -> (r: Option<T>)
        ensures
            r.is_none() ==> final(self)@ == old(self)@,
            T::obeys_eq_spec() ==> match r {
                Some(v) => exists|i: int|
                    first_at(old(self)@, value, i) && v == old(self)@[i]
                        && final(self)@ == old(self)@.update(i, old(self)@.last()).drop_last(),
                None => absent(old(self)@, value),
            },
    {
        match self.position(value) {
            Some(i) => Some(self.0.swap_remove(i)),
            None => None,
        }
    }

    /// All elements, in order.
    pub fn into_vec(self) -> (r: Vec<T>)
        ensures
            r@ == self@,
    {
        self.0
    }

    /// Keeps, in order, the elements for which `f` holds; `f` is called once
    /// per element, in order.
    pub fn retain<F: Fn(&T) -> bool>(&mut self, f: F)
        requires
            forall|x: &T| f.requires((x,)),
        ensures
            exists|keep: Seq<bool>|
                #![trigger kept(old(self)@, keep)]
                {
                    &&& keep.len() == old(self)@.len()
                    &&& forall|i: int| 0 <= i < keep.len() ==> f.ensures((&old(self)@[i],), #[trigger] keep[i])
                    &&& final(self)@ == kept(old(self)@, keep)
                },
    {
        let ghost before = self.0@;
        let mut rest: Vec<T> = Vec::new();
        while self.0.len() > 0
            invariant
                self.0@ + rest@.reverse() == before,
            decreases self.0@.len(),
        {
            let p = self.0.pop().unwrap();
            rest.push(p);
            proof {
                assert(self.0@ + rest@.reverse() =~= before);
            }
        }
        proof {
            assert(rest@.reverse() =~= before);
        }
        let n = rest.len();
        let mut keep: Vec<bool> = Vec::new();
        let mut i: usize = 0;
        while i < n
            invariant
                i <= n,
                n == before.len(),
                rest@.len() == n - i,
                forall|k: int| 0 <= k < n - i ==> #[trigger] rest@[k] == before[n - 1 - k],
                keep@.len() == i,
                forall|x: &T| f.requires((x,)),
                forall|k: int| 0 <= k < i ==> f.ensures((&before[k],), #[trigger] keep@[k]),
                self.0@ == kept(before.take(i as int), keep@),
            decreases n - i,
        {
            let p = rest.pop().unwrap();
            proof {
                assert(p == before[i as int]);
            }
            let b = f(&p);
            let ghost decided = keep@;
            keep.push(b);
            proof {
                let full = keep@ + Seq::new((n - i - 1) as nat, |j: int| false);
                assert(full.take(i as int) =~= decided);
                assert(full.take(i as int + 1) =~= keep@);
                assert(full[i as int] == b);
                lemma_kept_step(before, full, i as int);
            }
            if b {
                self.0.push(p);
            }
            i = i + 1;
        }
        proof {
            assert(before.take(n as int) =~= before);
            assert(before == old(self)@);
            assert(self@ == kept(old(self)@, keep@));
            assert(forall|i: int| 0 <= i < keep@.len() ==> f.ensures((&old(self)@[i],), #[trigger] keep@[i]));
        }
    }

    pub fn iter(&self) -> (r: std::slice::Iter<'_, T>) {
        self.0.as_slice().iter()
    }

    /// Each element, in order, for change in place.
    pub fn iter_mut(&mut self) -> (r: std::slice::IterMut<'_, T>) {
        slice_iter_mut(self.0.as_mut_slice())
    }

    /// A set holding the elements of `values`, inserted in order.
    pub fn from_vec(values: Vec<T>) -> (r: Self)
        ensures
            T::obeys_eq_spec() ==> r@ == inserted_values(Seq::<T>::empty(), values@),
    {
        let mut set = SmallSet::new();
        set.extend(values);
        set
    }

    /// Inserts each element of `values` in order.
    pub fn extend(&mut self, values: Vec<T>)
        ensures
            T::obeys_eq_spec() ==> final(self)@ == inserted_values(old(self)@, values@),
    {
        let ghost given = values@;
        let mut other = values;
        let mut rest: Vec<T> = Vec::new();
        while other.len() > 0
            invariant
                other@ + rest@.reverse() == given,
            decreases other@.len(),
        {
            let p = other.pop().unwrap();
            rest.push(p);
            proof {
                assert(other@ + rest@.reverse() =~= given);
            }
        }
        let ghost done: Seq<T> = Seq::empty();
        proof {
            assert(rest@.reverse() =~= given);
            assert(done + rest@.reverse() =~= given);
        }
        while rest.len() > 0
            invariant
                done + rest@.reverse() == given,
                T::obeys_eq_spec() ==> self@ == inserted_values(old(self)@, done),
            decreases rest@.len(),
        {
            let p = rest.pop().unwrap();
            proof {
                assert(done.push(p) + rest@.reverse() =~= given);
                assert(done.push(p).drop_last() =~= done);
            }
            let ghost q = p;
            let replaced = self.insert(p);
            proof {
                done = done.push(q);
            }
        }
        proof {
            assert(done =~= given);
        }
    }
}

} // verus!
