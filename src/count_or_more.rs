use vstd::prelude::*;
use vstd::laws_cmp::obeys_cmp;
use vstd::std_specs::cmp::{OrdSpec, PartialEqSpec};
use crate::order::{after, ascending, lemma_cmp_agrees, lemma_order, lemma_swap_multiset, slice_swap};
use crate::retain::{kept, kept_indices, lemma_kept_indices};
use crate::capacity::{vec_capacity, vec_reserve_exact, vec_shrink_to, vec_shrink_to_fit, vec_try_reserve_exact};

verus! {

/// Relies on `From<[T; N]> for Vec<T>`: moves the array's elements, in
/// order, into a new vector.
#[verifier::external_body]
fn array_into_vec<T, const N: usize>(a: [T; N]) -> (r: Vec<T>)
    ensures
        r@ == a@,
{
    Vec::from(a)
}

/// Moves an element across the boundary into the fixed region: `value` goes
/// to `index`, the elements from `index` on move one place up, and the
/// element pushed out of the last place comes back.
fn shift_in<T, const COUNT: usize>(fixed: &mut [T; COUNT], index: usize, value: T) -> (r: T)
    requires
        index < COUNT,
    ensures
        r == old(fixed)@[COUNT - 1],
        final(fixed)@ == old(fixed)@.insert(index as int, value).drop_last(),
{
    let ghost before = fixed@;
    let mut carry = value;
    let mut j: usize = index;
    while j < COUNT
        invariant
            index <= j <= COUNT,
            index < COUNT,
            before == old(fixed)@,
            fixed@.len() == COUNT,
            forall|k: int| 0 <= k < index ==> fixed@[k] == before[k],
            forall|k: int| index < k < j ==> fixed@[k] == before[k - 1],
            j > index ==> fixed@[index as int] == value,
            forall|k: int| j <= k < COUNT ==> fixed@[k] == before[k],
            j == index ==> carry == value,
            j > index ==> carry == before[j - 1],
        decreases COUNT - j,
    {
        std::mem::swap(&mut fixed[j], &mut carry);
        j = j + 1;
    }
    proof {
        assert(fixed@ =~= before.insert(index as int, value).drop_last());
    }
    carry
}

/// Moves an element across the boundary out of the fixed region: the
/// element at `index` comes back, the later ones move one place down, and
/// `incoming` takes the last place.
fn shift_out<T, const COUNT: usize>(fixed: &mut [T; COUNT], index: usize, incoming: T) -> (r: T)
    requires
        index < COUNT,
    ensures
        r == old(fixed)@[index as int],
        final(fixed)@ == old(fixed)@.remove(index as int).push(incoming),
{
    let ghost before = fixed@;
    let mut carry = incoming;
    let mut j: usize = COUNT;
    while j > index
        invariant
            index <= j <= COUNT,
            index < COUNT,
            before == old(fixed)@,
            fixed@.len() == COUNT,
            forall|k: int| 0 <= k < j ==> fixed@[k] == before[k],
            forall|k: int| j <= k < COUNT - 1 ==> fixed@[k] == before[k + 1],
            j < COUNT ==> fixed@[COUNT - 1] == incoming,
            j == COUNT ==> carry == incoming,
            j < COUNT ==> carry == before[j as int],
        decreases j,
    {
        j = j - 1;
        std::mem::swap(&mut fixed[j], &mut carry);
    }
    proof {
        assert(fixed@ =~= before.remove(index as int).push(incoming));
    }
    carry
}

/// A sequence of at least `COUNT` elements: the first `COUNT` live in an
/// inline array (the fixed region), the rest in a growable tail (the
/// dynamic region).
pub struct CountOrMore<const COUNT: usize, T> {
    fixed: [T; COUNT],
    dynamic: Vec<T>,
}

impl<const COUNT: usize, T> View for CountOrMore<COUNT, T> {
    type V = Seq<T>;

    /// The whole sequence: the fixed region followed by the dynamic one.
    open spec fn view(&self) -> Seq<T> {
        self.fixed_seq() + self.dynamic_seq()
    }
}

impl<const COUNT: usize, T> CountOrMore<COUNT, T> {
    /// The elements of the fixed region.
    pub closed spec fn fixed_seq(&self) -> Seq<T> {
        self.fixed@
    }

    /// The elements of the dynamic region.
    pub closed spec fn dynamic_seq(&self) -> Seq<T> {
        self.dynamic@
    }

    /// The total length can be counted in a `usize`.
    pub open spec fn wf(&self) -> bool {
        self@.len() <= usize::MAX
    }

    /// The fixed region always holds exactly `COUNT` elements, so the whole
    /// sequence never holds fewer than `COUNT`.
    pub proof fn lemma_prefix(&self)
        ensures
            self.fixed_seq().len() == COUNT,
            self@.len() >= COUNT,
            self@.subrange(0, COUNT as int) == self.fixed_seq(),
            self@.subrange(COUNT as int, self@.len() as int) == self.dynamic_seq(),
    {
        assert(self@.subrange(0, COUNT as int) =~= self.fixed_seq());
        assert(self@.subrange(COUNT as int, self@.len() as int) =~= self.dynamic_seq());
    }

    pub fn new(fixed: [T; COUNT], dynamic: Vec<T>) -> (r: Self)
        requires
            COUNT + dynamic@.len() <= usize::MAX,
        ensures
            r.fixed_seq() == fixed@,
            r.dynamic_seq() == dynamic@,
            r.wf(),
    {
        CountOrMore { fixed, dynamic }
    }

    /// The fixed region.
    pub fn fixed(&self) -> (r: &[T; COUNT])
        ensures
            r@ == self.fixed_seq(),
    {
        &self.fixed
    }

    /// The dynamic region.
    pub fn dynamic(&self) -> (r: &Vec<T>)
        ensures
            r@ == self.dynamic_seq(),
    {
        &self.dynamic
    }

    pub fn len(&self) -> (r: usize)
        requires
            self.wf(),
        ensures
            r == self@.len(),
    {
        COUNT + self.dynamic.len()
    }

    pub fn get(&self, index: usize) -> (r: Option<&T>)
        ensures
            index < self@.len() ==> r == Some(&self@[index as int]),
            index >= self@.len() ==> r.is_none(),
    {
        if index < COUNT {
            Some(&self.fixed[index])
        } else if index - COUNT < self.dynamic.len() {
            Some(&self.dynamic[index - COUNT])
        } else {
            None
        }
    }

    pub fn get_mut(&mut self, index: usize) -> (r: Option<&mut T>)
        ensures
            index >= old(self)@.len() ==> r.is_none() && *final(self) == *old(self),
            index < old(self)@.len() ==> r.is_some() && *r.unwrap() == old(self)@[index as int]
                && final(self).fixed_seq().len() == COUNT
                && final(self)@ == old(self)@.update(index as int, *final(r.unwrap())),
    {
        if index < COUNT {
            Some(&mut self.fixed[index])
        } else if index - COUNT < self.dynamic.len() {
            Some(&mut self.dynamic[index - COUNT])
        } else {
            None
        }
    }
    /// Empties the dynamic region; the fixed region stays as it is.
    pub fn clear_extras(&mut self)
        ensures
            final(self).fixed_seq() == old(self).fixed_seq(),
            final(self).dynamic_seq() == Seq::<T>::empty(),
            final(self).wf(),
    {
        self.dynamic.clear();
    }

    pub fn push(&mut self, value: T)
        requires
            old(self)@.len() < usize::MAX,
        ensures
            final(self).fixed_seq() == old(self).fixed_seq(),
            final(self).dynamic_seq() == old(self).dynamic_seq().push(value),
            final(self)@ == old(self)@.push(value),
            final(self).wf(),
    {
        self.dynamic.push(value);
    }

    /// Moves every element of `other` to the end of the sequence.
    pub fn append(&mut self, other: &mut Vec<T>)
        requires
            old(self)@.len() + old(other)@.len() <= usize::MAX,
        ensures
            final(self).fixed_seq() == old(self).fixed_seq(),
            final(self).dynamic_seq() == old(self).dynamic_seq() + old(other)@,
            final(self)@ == old(self)@ + old(other)@,
            final(other)@ == Seq::<T>::empty(),
            final(self).wf(),
    {
        self.dynamic.append(other);
    }

    /// Adds the elements of `other`, in order, to the end of the sequence.
    pub fn extend(&mut self, other: Vec<T>)
        requires
            old(self)@.len() + other@.len() <= usize::MAX,
        ensures
            final(self).fixed_seq() == old(self).fixed_seq(),
            final(self).dynamic_seq() == old(self).dynamic_seq() + other@,
            final(self)@ == old(self)@ + other@,
            final(self).wf(),
    {
        let mut other = other;
        self.dynamic.append(&mut other);
    }

    /// Takes the last element of the dynamic region; `None` when that region
    /// is empty, since the fixed region never shrinks.
    pub fn pop(&mut self) -> (r: Option<T>)
        ensures
            final(self).fixed_seq() == old(self).fixed_seq(),
            old(self).dynamic_seq().len() == 0 ==> r.is_none() && final(self).dynamic_seq() == old(self).dynamic_seq(),
            old(self).dynamic_seq().len() > 0 ==> r == Some(old(self).dynamic_seq().last())
                && final(self).dynamic_seq() == old(self).dynamic_seq().drop_last(),
            old(self).wf() ==> final(self).wf(),
    {
        self.dynamic.pop()
    }

    /// Inserts `value` at `index`, shifting later elements one place up; the
    /// last element of the fixed region moves to the front of the dynamic one.
    /// An `index` at or past the end is refused: the value comes back.
    pub fn insert(&mut self, index: usize, value: T) -> (r: Option<T>)
        requires
            old(self).wf(),
            old(self)@.len() < usize::MAX,
        ensures
            index >= old(self)@.len() ==> r == Some(value) && *final(self) == *old(self),
            index < old(self)@.len() ==> r.is_none() && final(self)@ == old(self)@.insert(index as int, value),
            final(self).wf(),
    {
        if index >= self.len() {
            return Some(value);
        }
        proof { self.lemma_prefix(); }
        if index < COUNT {
            let out = shift_in(&mut self.fixed, index, value);
            self.dynamic.insert(0, out);
            proof {
                assert(self@ =~= old(self)@.insert(index as int, value));
            }
        } else {
            self.dynamic.insert(index - COUNT, value);
            proof {
                assert(self@ =~= old(self)@.insert(index as int, value));
            }
        }
        None
    }

    /// Removes the element at `index`, shifting later elements one place
    /// down; the first element of the dynamic region moves into the fixed one.
    /// `None`, with nothing changed, when `index` is past the end or the
    /// dynamic region is empty.
    pub fn remove(&mut self, index: usize) -> (r: Option<T>)
        requires
            old(self).wf(),
        ensures
            index >= old(self)@.len() || old(self).dynamic_seq().len() == 0 ==> r.is_none() && *final(self) == *old(self),
            index < old(self)@.len() && old(self).dynamic_seq().len() > 0 ==> r == Some(old(self)@[index as int])
                && final(self)@ == old(self)@.remove(index as int),
            final(self).wf(),
    {
        if index >= self.len() || self.dynamic.len() == 0 {
            return None;
        }
        proof { self.lemma_prefix(); }
        if index < COUNT {
            let first = self.dynamic.remove(0);
            let removed = shift_out(&mut self.fixed, index, first);
            proof {
                assert(self@ =~= old(self)@.remove(index as int));
            }
            Some(removed)
        } else {
            let r = self.dynamic.remove(index - COUNT);
            proof {
                assert(self@ =~= old(self)@.remove(index as int));
            }
            Some(r)
        }
    }

    /// Removes the element at `index` and puts the last element in its place.
    /// `None`, with nothing changed, when `index` is past the end or the
    /// dynamic region is empty.
    pub fn swap_remove(&mut self, index: usize) -> (r: Option<T>)
        requires
            old(self).wf(),
        ensures
            index >= old(self)@.len() || old(self).dynamic_seq().len() == 0 ==> r.is_none() && *final(self) == *old(self),
            index < old(self)@.len() && old(self).dynamic_seq().len() > 0 ==> r == Some(old(self)@[index as int])
                && final(self)@ == old(self)@.update(index as int, old(self)@.last()).drop_last(),
            final(self).wf(),
    {
        if index >= self.len() || self.dynamic.len() == 0 {
            return None;
        }
        proof { self.lemma_prefix(); }
        if index < COUNT {
            let mut last = self.dynamic.pop().unwrap();
            std::mem::swap(&mut self.fixed[index], &mut last);
            proof {
                assert(self@ =~= old(self)@.update(index as int, old(self)@.last()).drop_last());
            }
            Some(last)
        } else {
            let r = self.dynamic.swap_remove(index - COUNT);
            proof {
                assert(self@ =~= old(self)@.update(index as int, old(self)@.last()).drop_last());
            }
            Some(r)
        }
    }

    /// Cuts the sequence down to `len` elements; refused, with nothing
    /// changed, when `len` is below `COUNT`.
    pub fn try_truncate(&mut self, len: usize) -> (r: bool)
        requires
            old(self).wf(),
        ensures
            r == (len >= COUNT),
            !r ==> *final(self) == *old(self),
            r && len < old(self)@.len() ==> final(self)@ == old(self)@.subrange(0, len as int),
            r && len >= old(self)@.len() ==> final(self)@ == old(self)@,
            final(self).wf(),
    {
        if len >= COUNT {
            self.dynamic.truncate(len - COUNT);
            proof {
                self.lemma_prefix();
                if len < old(self)@.len() {
                    assert(self@ =~= old(self)@.subrange(0, len as int));
                } else {
                    assert(self@ =~= old(self)@);
                }
            }
            true
        } else {
            false
        }
    }

    /// Exchanges the elements at `a` and `b`; nothing happens when they are
    /// equal or either is past the end.
    pub fn swap(&mut self, a: usize, b: usize)
        requires
            old(self).wf(),
        ensures
            a == b || a >= old(self)@.len() || b >= old(self)@.len() ==> *final(self) == *old(self),
            a != b && a < old(self)@.len() && b < old(self)@.len() ==> final(self)@ == old(self)@.update(
                a as int,
                old(self)@[b as int],
            ).update(b as int, old(self)@[a as int]),
            final(self).wf(),
    {
        if a == b {
            return;
        }
        let len = self.len();
        if a >= len || b >= len {
            return;
        }
        proof { self.lemma_prefix(); }
        if a < COUNT && b < COUNT {
            slice_swap(&mut self.fixed, a, b);
        } else if a < COUNT {
            std::mem::swap(&mut self.fixed[a], &mut self.dynamic[b - COUNT]);
        } else if b < COUNT {
            std::mem::swap(&mut self.fixed[b], &mut self.dynamic[a - COUNT]);
        } else {
            slice_swap(self.dynamic.as_mut_slice(), a - COUNT, b - COUNT);
        }
        proof {
            assert(self@ =~= old(self)@.update(a as int, old(self)@[b as int]).update(b as int, old(self)@[a as int]));
        }
    }
    /// Keeps the elements at the positions where `keep` holds `true`, in
    /// order. Refused, with nothing changed, when `keep` does not have one
    /// entry per element, when fewer than `COUNT` would remain, or when all
    /// would remain.
    pub fn try_retain_mask(&mut self, keep: &Vec<bool>) -> (r: bool)
        requires
            old(self).wf(),
        ensures
            r == (keep@.len() == old(self)@.len() && kept_indices(keep@).len() >= COUNT
                && kept_indices(keep@).len() < old(self)@.len()),
            !r ==> *final(self) == *old(self),
            r ==> final(self)@ == kept(old(self)@, keep@),
            final(self).wf(),
    {
        let len = self.len();
        if keep.len() != len {
            return false;
        }
        let mut retained: Vec<usize> = Vec::new();
        let mut i: usize = 0;
        while i < len
            invariant
                i <= len,
                len == keep@.len(),
                retained@.len() == kept_indices(keep@.take(i as int)).len(),
                forall|k: int| 0 <= k < retained@.len() ==> retained@[k] as int == #[trigger] kept_indices(keep@.take(i as int))[k],
            decreases len - i,
        {
            proof {
                assert(keep@.take(i as int + 1).drop_last() =~= keep@.take(i as int));
            }
            if keep[i] {
                retained.push(i);
            }
            i = i + 1;
        }
        proof {
            assert(keep@.take(len as int) =~= keep@);
            lemma_kept_indices(keep@);
        }
        let n = retained.len();
        if n < COUNT || n == len {
            return false;
        }
        let ghost idx = kept_indices(keep@);
        let mut o: usize = 0;
        while o < n
            invariant
                o <= n,
                n == retained@.len(),
                n == idx.len(),
                len == old(self)@.len(),
                idx == kept_indices(keep@),
                keep@.len() == len,
                forall|k: int| 0 <= k < n ==> retained@[k] as int == #[trigger] idx[k],
                forall|k: int| 0 <= k < n ==> 0 <= #[trigger] idx[k] < len,
                forall|k: int| 0 <= k < n ==> k <= #[trigger] idx[k],
                forall|k: int, l: int| 0 <= k < l < n ==> #[trigger] idx[k] < #[trigger] idx[l],
                self.wf(),
                self@.len() == len,
                forall|k: int| 0 <= k < o ==> #[trigger] self@[k] == old(self)@[idx[k]],
                forall|p: int| (o == 0 || idx[o - 1] < p) && p < len ==> #[trigger] self@[p] == old(self)@[p],
            decreases n - o,
        {
            let target = retained[o];
            proof {
                assert(idx[o as int] == target as int);
            }
            self.swap(o, target);
            o = o + 1;
        }
        let truncated = self.try_truncate(n);
        proof {
            self.lemma_prefix();
            assert(self@ =~= kept(old(self)@, keep@));
        }
        true
    }
    pub fn shrink_to_fit(&mut self)
        ensures
            final(self).fixed_seq() == old(self).fixed_seq(),
            final(self).dynamic_seq() == old(self).dynamic_seq(),
    {
        vec_shrink_to_fit(&mut self.dynamic);
    }

    /// Lowers the capacity towards `min_capacity`; the fixed region counts
    /// for `COUNT` of it.
    pub fn shrink_to(&mut self, min_capacity: usize)
        ensures
            final(self).fixed_seq() == old(self).fixed_seq(),
            final(self).dynamic_seq() == old(self).dynamic_seq(),
    {
        if min_capacity > COUNT {
            vec_shrink_to(&mut self.dynamic, min_capacity - COUNT);
        }
    }


    pub fn reserve(&mut self, additional: usize)
        ensures
            final(self).fixed_seq() == old(self).fixed_seq(),
            final(self).dynamic_seq() == old(self).dynamic_seq(),
    {
        self.dynamic.reserve(additional);
    }

    pub fn reserve_exact(&mut self, additional: usize)
        ensures
            final(self).fixed_seq() == old(self).fixed_seq(),
            final(self).dynamic_seq() == old(self).dynamic_seq(),
    {
        vec_reserve_exact(&mut self.dynamic, additional);
    }

    pub fn try_reserve(&mut self, additional: usize) -> (r: Result<(), std::collections::TryReserveError>)
        ensures
            final(self).fixed_seq() == old(self).fixed_seq(),
            final(self).dynamic_seq() == old(self).dynamic_seq(),
    {
        self.dynamic.try_reserve(additional)
    }

    pub fn try_reserve_exact(&mut self, additional: usize) -> (r: Result<(), std::collections::TryReserveError>)
        ensures
            final(self).fixed_seq() == old(self).fixed_seq(),
            final(self).dynamic_seq() == old(self).dynamic_seq(),
    {
        vec_try_reserve_exact(&mut self.dynamic, additional)
    }

    /// References to every element, in order.
    pub fn iter(&self) -> (r: Vec<&T>)
        requires
            self.wf(),
        ensures
            r@.len() == self@.len(),
            forall|i: int| 0 <= i < r@.len() ==> *r@[i] == self@[i],
    {
        let mut r: Vec<&T> = Vec::new();
        let mut i: usize = 0;
        while i < COUNT
            invariant
                i <= COUNT,
                self.fixed@.len() == COUNT,
                r@.len() == i,
                forall|k: int| 0 <= k < i ==> *r@[k] == self.fixed@[k],
            decreases COUNT - i,
        {
            r.push(&self.fixed[i]);
            i = i + 1;
        }
        let mut j: usize = 0;
        while j < self.dynamic.len()
            invariant
                j <= self.dynamic@.len(),
                self.fixed@.len() == COUNT,
                r@.len() == COUNT + j,
                forall|k: int| 0 <= k < COUNT ==> *r@[k] == self.fixed@[k],
                forall|k: int| 0 <= k < j ==> *r@[COUNT + k] == self.dynamic@[k],
            decreases self.dynamic@.len() - j,
        {
            r.push(&self.dynamic[j]);
            j = j + 1;
        }
        r
    }

    /// The two regions, open for changes in place; neither can grow or
    /// shrink through them.
    pub fn iter_mut(&mut self) -> (r: (&mut [T], &mut [T]))
        ensures
            r.0@ == old(self).fixed_seq(),
            r.1@ == old(self).dynamic_seq(),
            final(self).fixed_seq() == final(r.0)@,
            final(self).dynamic_seq() == final(r.1)@,
    {
        (&mut self.fixed, self.dynamic.as_mut_slice())
    }

    /// All elements, in order, in one vector.
    pub fn into_vec(self) -> (r: Vec<T>)
        ensures
            r@ == self@,
    {
        let mut v = array_into_vec(self.fixed);
        let mut dynamic = self.dynamic;
        v.append(&mut dynamic);
        v
    }

    /// Like `try_retain_mask`, with `f` deciding for each element, once, in
    /// order, whether it stays.
    pub fn try_retain<F: Fn(&T) -> bool>(&mut self, f: F) -> (r: bool)
        requires
            old(self).wf(),
            forall|x: &T| f.requires((x,)),
        ensures
            exists|keep: Seq<bool>|
                #![trigger kept_indices(keep)]
                {
                    &&& keep.len() == old(self)@.len()
                    &&& forall|i: int| 0 <= i < keep.len() ==> f.ensures((&old(self)@[i],), #[trigger] keep[i])
                    &&& r == (kept_indices(keep).len() >= COUNT && kept_indices(keep).len() < old(self)@.len())
                    &&& r ==> final(self)@ == kept(old(self)@, keep)
                    &&& !r ==> *final(self) == *old(self)
                },
            final(self).wf(),
    {
        let n = self.len();
        let mut keep: Vec<bool> = Vec::new();
        let mut i: usize = 0;
        while i < n
            invariant
                i <= n,
                n == self@.len(),
                keep@.len() == i,
                *self == *old(self),
                forall|x: &T| f.requires((x,)),
                forall|k: int| 0 <= k < i ==> f.ensures((&self@[k],), #[trigger] keep@[k]),
            decreases n - i,
        {
            let x = self.get(i).unwrap();
            let b = f(x);
            keep.push(b);
            i = i + 1;
        }
        let ghost decided = keep@;
        let r = self.try_retain_mask(&keep);
        proof {
            assert(decided.len() == old(self)@.len());
            assert(forall|i: int| 0 <= i < decided.len() ==> f.ensures((&old(self)@[i],), #[trigger] decided[i]));
        }
        r
    }

    /// Sorts the elements by the key that `f` gives each of them, moving
    /// them only by exchanges of two positions. `f` is called once per element.
    pub fn sort_by_key<K: Ord, F: Fn(&T) -> K>(&mut self, f: F)
        requires
            old(self).wf(),
            obeys_cmp::<K>(),
            forall|x: &T| f.requires((x,)),
        ensures
            final(self).wf(),
            final(self)@.len() == old(self)@.len(),
            final(self)@.to_multiset() == old(self)@.to_multiset(),
            exists|keys: Seq<K>|
                {
                    &&& keys.len() == final(self)@.len()
                    &&& ascending(keys)
                    &&& forall|i: int| 0 <= i < keys.len() ==> f.ensures((&final(self)@[i],), #[trigger] keys[i])
                },
    {
        let n = self.len();
        let mut keys: Vec<K> = Vec::new();
        let mut i: usize = 0;
        while i < n
            invariant
                i <= n,
                n == self@.len(),
                keys@.len() == i,
                forall|x: &T| f.requires((x,)),
                forall|k: int| 0 <= k < i ==> f.ensures((&self@[k],), #[trigger] keys@[k]),
            decreases n - i,
        {
            let x = self.get(i).unwrap();
            let k = f(x);
            keys.push(k);
            i = i + 1;
        }
        proof {
            lemma_cmp_agrees::<K>();
        }
        let mut i: usize = 0;
        while i < n
            invariant
                i <= n,
                n == self@.len(),
                self.wf(),
                keys@.len() == n,
                obeys_cmp::<K>(),
                K::obeys_cmp_spec(),
                self@.to_multiset() == old(self)@.to_multiset(),
                forall|k: int| 0 <= k < n ==> f.ensures((&self@[k],), #[trigger] keys@[k]),
                forall|a: int, b: int| 0 <= a < b < i ==> !after(#[trigger] keys@[a], #[trigger] keys@[b]),
                forall|a: int, b: int| 0 <= a < i <= b < n ==> !after(#[trigger] keys@[a], #[trigger] keys@[b]),
            decreases n - i,
        {
            let mut m: usize = i;
            let mut j: usize = i + 1;
            proof {
                lemma_order(keys@[i as int], keys@[i as int], keys@[i as int]);
            }
            while j < n
                invariant
                    i <= m < j <= n,
                    i < n,
                    keys@.len() == n,
                    obeys_cmp::<K>(),
                    K::obeys_cmp_spec(),
                    forall|q: int| i <= q < j ==> !after(keys@[m as int], #[trigger] keys@[q]),
                decreases n - j,
            {
                let less = matches!(keys[j].cmp(&keys[m]), std::cmp::Ordering::Less);
                proof {
                    lemma_order(keys@[j as int], keys@[m as int], keys@[j as int]);
                }
                if less {
                    proof {
                        assert forall|q: int| i <= q < j + 1 implies !after(keys@[j as int], #[trigger] keys@[q]) by {
                            lemma_order(keys@[j as int], keys@[m as int], keys@[q]);
                        }
                    }
                    m = j;
                }
                j = j + 1;
            }
            let ghost before = self@;
            let ghost kb = keys@;
            self.swap(i, m);
            slice_swap(keys.as_mut_slice(), i, m);
            proof {
                lemma_swap_multiset(before, i as int, m as int);
                assert(self@ == before.update(i as int, before[m as int]).update(m as int, before[i as int])) by {
                    if i == m {
                        assert(before.update(i as int, before[m as int]).update(m as int, before[i as int]) =~= before);
                    }
                }
                assert(keys@ == kb.update(i as int, kb[m as int]).update(m as int, kb[i as int]));
            }
            i = i + 1;
        }
    }
    /// How many elements fit without reallocating: `COUNT` plus the
    /// capacity of the dynamic region (at most `usize::MAX`).
    pub fn capacity(&self) -> (r: usize)
        requires
            self.wf(),
        ensures
            r >= self@.len(),
    {
        let cap = vec_capacity(&self.dynamic);
        COUNT.saturating_add(cap)
    }

    /// Appends `value` only where the dynamic region has room for it without
    /// reallocating; otherwise hands it back.
    pub fn push_within_capacity(&mut self, value: T) -> (r: Result<(), T>)
        requires
            old(self).wf(),
        ensures
            r is Ok ==> final(self).fixed_seq() == old(self).fixed_seq() && final(self).dynamic_seq() == old(self).dynamic_seq().push(value),
            r is Err ==> r == Err::<(), T>(value) && *final(self) == *old(self),
            final(self).wf(),
    {
        let cap = vec_capacity(&self.dynamic);
        if self.dynamic.len() < cap && self.dynamic.len() < usize::MAX - COUNT {
            self.dynamic.push(value);
            Ok(())
        } else {
            Err(value)
        }
    }

    /// The sequence sorted by the key that `f` gives each element, as
    /// `sort_by_key` sorts it.
    pub fn into_sorted_by_key<K: Ord, F: Fn(&T) -> K>(self, f: F) -> (r: Self)
        requires
            self.wf(),
            obeys_cmp::<K>(),
            forall|x: &T| f.requires((x,)),
        ensures
            r.wf(),
            r@.len() == self@.len(),
            r@.to_multiset() == self@.to_multiset(),
            exists|keys: Seq<K>|
                {
                    &&& keys.len() == r@.len()
                    &&& ascending(keys)
                    &&& forall|i: int| 0 <= i < keys.len() ==> f.ensures((&r@[i],), #[trigger] keys[i])
                },
    {
        let mut sorted = self;
        sorted.sort_by_key(f);
        sorted
    }
}

impl<const COUNT: usize, T: Ord> CountOrMore<COUNT, T> {
    /// Whether some element equals `value`.
    pub fn contains(&self, value: &T) -> (r: bool)
        requires
            self.wf(),
        ensures
            T::obeys_eq_spec() ==> (r <==> exists|i: int| 0 <= i < self@.len() && (#[trigger] self@[i]).eq_spec(value)),
    {
        let n = self.len();
        let mut i: usize = 0;
        while i < n
            invariant
                i <= n,
                n == self@.len(),
                T::obeys_eq_spec() ==> forall|k: int| 0 <= k < i ==> !(#[trigger] self@[k]).eq_spec(value),
            decreases n - i,
        {
            let x = self.get(i).unwrap();
            if x.eq(value) {
                return true;
            }
            i = i + 1;
        }
        false
    }
}

} // verus!
