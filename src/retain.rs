//! Which elements a retaining pass keeps, as a function of one decision per
//! element.
use vstd::prelude::*;

verus! {

/// The positions at which `keep` holds `true`, in increasing order.
pub open spec fn kept_indices(keep: Seq<bool>) -> Seq<int>
    decreases keep.len(),
{
    if keep.len() == 0 {
        Seq::empty()
    } else if keep.last() {
        kept_indices(keep.drop_last()).push(keep.len() - 1)
    } else {
        kept_indices(keep.drop_last())
    }
}

/// The elements of `s` at the positions where `keep` holds `true`, in order.
pub open spec fn kept<T>(s: Seq<T>, keep: Seq<bool>) -> Seq<T> {
    kept_indices(keep).map_values(|i: int| s[i])
}

/// The kept positions are increasing and lie below `keep.len()`.
pub proof fn lemma_kept_indices(keep: Seq<bool>)
    ensures
        kept_indices(keep).len() <= keep.len(),
        forall|k: int| 0 <= k < kept_indices(keep).len() ==> 0 <= #[trigger] kept_indices(keep)[k] < keep.len(),
        forall|k: int| 0 <= k < kept_indices(keep).len() ==> k <= #[trigger] kept_indices(keep)[k],
        forall|k: int, l: int| 0 <= k < l < kept_indices(keep).len() ==> #[trigger] kept_indices(keep)[k] < #[trigger] kept_indices(keep)[l],
        forall|k: int| 0 <= k < kept_indices(keep).len() ==> keep[#[trigger] kept_indices(keep)[k]],
    decreases keep.len(),
{
    if keep.len() > 0 {
        lemma_kept_indices(keep.drop_last());
    }
}

/// Extending the elements and decisions by one adds the new element when it
/// is kept.
pub proof fn lemma_kept_step<T>(s: Seq<T>, keep: Seq<bool>, i: int)
    requires
        0 <= i < s.len(),
        s.len() == keep.len(),
    ensures
        kept(s.take(i + 1), keep.take(i + 1)) == if keep[i] {
            kept(s.take(i), keep.take(i)).push(s[i])
        } else {
            kept(s.take(i), keep.take(i))
        },
{
    assert(keep.take(i + 1).drop_last() =~= keep.take(i));
    lemma_kept_indices(keep.take(i));
    let a = kept(s.take(i + 1), keep.take(i + 1));
    let b = if keep[i] { kept(s.take(i), keep.take(i)).push(s[i]) } else { kept(s.take(i), keep.take(i)) };
    assert(a =~= b);
}

} // verus!
