//! Capacity controls of `Vec`, which keep the contents as they are, and the
//! growth policy of the small collections.
use vstd::prelude::*;

verus! {

/// Relies on `Vec::capacity`: the number of elements the vector can hold
/// without reallocating, never less than its length.
#[verifier::external_body]
pub(crate) fn vec_capacity<T>(v: &Vec<T>) -> (r: usize)
    ensures
        r >= v@.len(),
{
    v.capacity()
}

/// Relies on `Vec::shrink_to_fit`: releases spare capacity, contents unchanged.
#[verifier::external_body]
pub(crate) fn vec_shrink_to_fit<T>(v: &mut Vec<T>)
    ensures
        final(v)@ == old(v)@,
{
    v.shrink_to_fit()
}

/// Relies on `Vec::shrink_to`: lowers the capacity towards `min_capacity`,
/// contents unchanged.
#[verifier::external_body]
pub(crate) fn vec_shrink_to<T>(v: &mut Vec<T>, min_capacity: usize)
    ensures
        final(v)@ == old(v)@,
{
    v.shrink_to(min_capacity)
}

/// Relies on `Vec::reserve_exact`: makes room for `additional` more
/// elements, contents unchanged.
#[verifier::external_body]
pub(crate) fn vec_reserve_exact<T>(v: &mut Vec<T>, additional: usize)
    ensures
        final(v)@ == old(v)@,
{
    v.reserve_exact(additional)
}

/// Relies on `Vec::try_reserve_exact`: tries to make room for `additional`
/// more elements, contents unchanged either way.
#[verifier::external_body]
pub(crate) fn vec_try_reserve_exact<T>(v: &mut Vec<T>, additional: usize) -> (r: Result<(), std::collections::TryReserveError>)
    ensures
        final(v)@ == old(v)@,
{
    v.try_reserve_exact(additional)
}

/// `p` is a power of two.
pub open spec fn is_power_of_two(p: nat) -> bool
    decreases p,
{
    if p == 1 {
        true
    } else if p == 0 || p % 2 == 1 {
        false
    } else {
        is_power_of_two(p / 2)
    }
}

/// The least power of two at or above `n`, or `n` itself where that power
/// does not fit in a `usize`.
pub(crate) fn next_power_of_two(n: usize) -> (r: usize)
    ensures
        r >= n,
        r == n || (is_power_of_two(r as nat) && (r == 1 || r / 2 < n)),
{
    let mut p: usize = 1;
    while p < n
        invariant
            p >= 1,
            is_power_of_two(p as nat),
            p == 1 || p / 2 < n,
        decreases usize::MAX - p,
    {
        if p > usize::MAX / 2 {
            return n;
        }
        proof {
            assert((p * 2) as nat / 2 == p as nat);
            assert((p * 2) as nat % 2 == 0);
        }
        p = p * 2;
    }
    p
}

} // verus!
