//! Orders, exchanges and the facts about them that sorting relies on.
use vstd::prelude::*;
use vstd::laws_cmp::obeys_cmp;
use vstd::std_specs::cmp::{OrdSpec, PartialOrdSpec};

verus! {

/// Relies on `<[T]>::swap`: exchanges the elements at `i` and `j`, and
/// leaves the others in place.
#[verifier::external_body]
pub(crate) fn slice_swap<T>(s: &mut [T], i: usize, j: usize)
    requires
        i < old(s)@.len(),
        j < old(s)@.len(),
    ensures
        final(s)@ == old(s)@.update(i as int, old(s)@[j as int]).update(j as int, old(s)@[i as int]),
{
    s.swap(i, j)
}

/// `x` comes after `y` in the order of `K`.
pub open spec fn after<K: Ord>(x: K, y: K) -> bool {
    x.cmp_spec(&y) == std::cmp::Ordering::Greater
}

/// The keys are in ascending order.
pub open spec fn ascending<K: Ord>(keys: Seq<K>) -> bool {
    forall|a: int, b: int| 0 <= a < b < keys.len() ==> !after(#[trigger] keys[a], #[trigger] keys[b])
}

/// An order that obeys the laws of a total order agrees with its `cmp`.
pub proof fn lemma_cmp_agrees<K: Ord>()
    requires
        obeys_cmp::<K>(),
    ensures
        K::obeys_cmp_spec(),
{
    reveal(vstd::laws_cmp::obeys_cmp_ord);
}

/// In a total order, "not after" is transitive, and "before" means "not after"
/// in the other direction.
pub proof fn lemma_order<K: Ord>(x: K, y: K, z: K)
    requires
        obeys_cmp::<K>(),
    ensures
        K::obeys_cmp_spec(),
        !after(x, y) && !after(y, z) ==> !after(x, z),
        x.cmp_spec(&y) == std::cmp::Ordering::Less <==> after(y, x),
        !after(x, x),
{
    reveal(vstd::laws_cmp::obeys_cmp_ord);
    reveal(vstd::laws_cmp::obeys_cmp_partial_ord);
    reveal(vstd::laws_cmp::obeys_partial_cmp_spec_properties);
    reveal(vstd::laws_eq::obeys_eq_spec_properties);
    assert(x.partial_cmp_spec(&y) == Some(x.cmp_spec(&y)));
    assert(y.partial_cmp_spec(&z) == Some(y.cmp_spec(&z)));
    assert(x.partial_cmp_spec(&z) == Some(x.cmp_spec(&z)));
    assert(y.partial_cmp_spec(&x) == Some(y.cmp_spec(&x)));
    assert(z.partial_cmp_spec(&y) == Some(z.cmp_spec(&y)));
    assert(z.partial_cmp_spec(&x) == Some(z.cmp_spec(&x)));
    assert(x.partial_cmp_spec(&x) == Some(x.cmp_spec(&x)));
}

/// Exchanging two elements leaves the multiset of elements as it was.
pub proof fn lemma_swap_multiset<T>(s: Seq<T>, a: int, b: int)
    requires
        0 <= a < s.len(),
        0 <= b < s.len(),
    ensures
        s.update(a, s[b]).update(b, s[a]).to_multiset() == s.to_multiset(),
{
    broadcast use vstd::seq_lib::group_to_multiset_ensures;
    let t = s.update(a, s[b]);
    assert(t.to_multiset() == s.to_multiset().remove(s[a]).insert(s[b]));
    assert(t.update(b, s[a]).to_multiset() == t.to_multiset().remove(t[b]).insert(s[a]));
    if a == b {
        assert(t =~= s);
        assert(t.update(b, s[a]) =~= s);
    } else {
        assert(t[b] == s[b]);
    }
    assert(s.to_multiset().remove(s[a]).insert(s[b]).remove(s[b]).insert(s[a]) =~= s.to_multiset());
}

} // verus!
