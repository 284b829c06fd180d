//! Unsigned integers kept within a range fixed by the type: every value
//! that enters is clamped, and arithmetic saturates at the range of the
//! underlying integer before it is clamped.
use vstd::prelude::*;

pub mod bound_u8;
pub mod bound_u16;
pub mod bound_u32;
pub mod bound_u64;
pub mod bound_usize;
pub mod signed;

verus! {

/// `v` pinned to `[lo, hi]`.
pub open spec fn clamp(v: int, lo: int, hi: int) -> int {
    if v < lo {
        lo
    } else if v > hi {
        hi
    } else {
        v
    }
}

/// The order of two integers.
pub open spec fn compare(a: int, b: int) -> std::cmp::Ordering {
    if a < b {
        std::cmp::Ordering::Less
    } else if a == b {
        std::cmp::Ordering::Equal
    } else {
        std::cmp::Ordering::Greater
    }
}

} // verus!
