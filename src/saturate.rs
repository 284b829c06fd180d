//! Conversions between integer types that pin a value to the range of the
//! target type instead of wrapping it.
use vstd::prelude::*;
use vstd::std_specs::cmp::PartialEqSpec;

verus! {

/// `v` pinned to `[lo, hi]`.
pub open spec fn pin(v: int, lo: int, hi: int) -> int {
    if v < lo {
        lo
    } else if v > hi {
        hi
    } else {
        v
    }
}

/// Turns `self` into a `T`, pinning it to the range of `T`.
pub trait SaturateInto<T>: Sized {
    /// `self` pinned to the range of `T`.
    spec fn saturated(self) -> T;

    fn saturate_into(self) -> (r: T)
        ensures
            r == self.saturated(),
    ;
}

/// Compares a value with one of another type, after pinning it to that type.
pub trait SaturateEq<T: PartialEq>: SaturateInto<T> {
    fn saturate_eq(self, other: T) -> (r: bool)
        ensures
            T::obeys_eq_spec() ==> r == self.saturated().eq_spec(&other),
    ;
}

impl<T: PartialEq, T2: SaturateInto<T>> SaturateEq<T> for T2 {
    fn saturate_eq(self, other: T) -> (r: bool) {
        let pinned = self.saturate_into();
        pinned.eq(&other)
    }
}

impl<T> SaturateInto<T> for T {
    open spec fn saturated(self) -> T {
        self
    }

    fn saturate_into(self) -> (r: T) {
        self
    }
}

impl SaturateInto<u32> for usize {
    open spec fn saturated(self) -> u32 {
        pin(self as int, u32::MIN as int, u32::MAX as int) as u32
    }

    fn saturate_into(self) -> (r: u32) {
        let v = self as i128;
        if v < u32::MIN as i128 {
            u32::MIN
        } else if v > u32::MAX as i128 {
            u32::MAX
        } else {
            v as u32
        }
    }
}

impl SaturateInto<u64> for usize {
    open spec fn saturated(self) -> u64 {
        pin(self as int, u64::MIN as int, u64::MAX as int) as u64
    }

    fn saturate_into(self) -> (r: u64) {
        let v = self as i128;
        if v < u64::MIN as i128 {
            u64::MIN
        } else if v > u64::MAX as i128 {
            u64::MAX
        } else {
            v as u64
        }
    }
}

impl SaturateInto<isize> for usize {
    open spec fn saturated(self) -> isize {
        pin(self as int, isize::MIN as int, isize::MAX as int) as isize
    }

    fn saturate_into(self) -> (r: isize) {
        let v = self as i128;
        if v < isize::MIN as i128 {
            isize::MIN
        } else if v > isize::MAX as i128 {
            isize::MAX
        } else {
            v as isize
        }
    }
}

impl SaturateInto<i32> for usize {
    open spec fn saturated(self) -> i32 {
        pin(self as int, i32::MIN as int, i32::MAX as int) as i32
    }

    fn saturate_into(self) -> (r: i32) {
        let v = self as i128;
        if v < i32::MIN as i128 {
            i32::MIN
        } else if v > i32::MAX as i128 {
            i32::MAX
        } else {
            v as i32
        }
    }
}

impl SaturateInto<i64> for usize {
    open spec fn saturated(self) -> i64 {
        pin(self as int, i64::MIN as int, i64::MAX as int) as i64
    }

    fn saturate_into(self) -> (r: i64) {
        let v = self as i128;
        if v < i64::MIN as i128 {
            i64::MIN
        } else if v > i64::MAX as i128 {
            i64::MAX
        } else {
            v as i64
        }
    }
}

impl SaturateInto<usize> for u32 {
    open spec fn saturated(self) -> usize {
        pin(self as int, usize::MIN as int, usize::MAX as int) as usize
    }

    fn saturate_into(self) -> (r: usize) {
        let v = self as i128;
        if v < usize::MIN as i128 {
            usize::MIN
        } else if v > usize::MAX as i128 {
            usize::MAX
        } else {
            v as usize
        }
    }
}

impl SaturateInto<u64> for u32 {
    open spec fn saturated(self) -> u64 {
        pin(self as int, u64::MIN as int, u64::MAX as int) as u64
    }

    fn saturate_into(self) -> (r: u64) {
        let v = self as i128;
        if v < u64::MIN as i128 {
            u64::MIN
        } else if v > u64::MAX as i128 {
            u64::MAX
        } else {
            v as u64
        }
    }
}

impl SaturateInto<isize> for u32 {
    open spec fn saturated(self) -> isize {
        pin(self as int, isize::MIN as int, isize::MAX as int) as isize
    }

    fn saturate_into(self) -> (r: isize) {
        let v = self as i128;
        if v < isize::MIN as i128 {
            isize::MIN
        } else if v > isize::MAX as i128 {
            isize::MAX
        } else {
            v as isize
        }
    }
}

impl SaturateInto<i32> for u32 {
    open spec fn saturated(self) -> i32 {
        pin(self as int, i32::MIN as int, i32::MAX as int) as i32
    }

    fn saturate_into(self) -> (r: i32) {
        let v = self as i128;
        if v < i32::MIN as i128 {
            i32::MIN
        } else if v > i32::MAX as i128 {
            i32::MAX
        } else {
            v as i32
        }
    }
}

impl SaturateInto<i64> for u32 {
    open spec fn saturated(self) -> i64 {
        pin(self as int, i64::MIN as int, i64::MAX as int) as i64
    }

    fn saturate_into(self) -> (r: i64) {
        let v = self as i128;
        if v < i64::MIN as i128 {
            i64::MIN
        } else if v > i64::MAX as i128 {
            i64::MAX
        } else {
            v as i64
        }
    }
}

impl SaturateInto<usize> for u64 {
    open spec fn saturated(self) -> usize {
        pin(self as int, usize::MIN as int, usize::MAX as int) as usize
    }

    fn saturate_into(self) -> (r: usize) {
        let v = self as i128;
        if v < usize::MIN as i128 {
            usize::MIN
        } else if v > usize::MAX as i128 {
            usize::MAX
        } else {
            v as usize
        }
    }
}

impl SaturateInto<u32> for u64 {
    open spec fn saturated(self) -> u32 {
        pin(self as int, u32::MIN as int, u32::MAX as int) as u32
    }

    fn saturate_into(self) -> (r: u32) {
        let v = self as i128;
        if v < u32::MIN as i128 {
            u32::MIN
        } else if v > u32::MAX as i128 {
            u32::MAX
        } else {
            v as u32
        }
    }
}

impl SaturateInto<isize> for u64 {
    open spec fn saturated(self) -> isize {
        pin(self as int, isize::MIN as int, isize::MAX as int) as isize
    }

    fn saturate_into(self) -> (r: isize) {
        let v = self as i128;
        if v < isize::MIN as i128 {
            isize::MIN
        } else if v > isize::MAX as i128 {
            isize::MAX
        } else {
            v as isize
        }
    }
}

impl SaturateInto<i32> for u64 {
    open spec fn saturated(self) -> i32 {
        pin(self as int, i32::MIN as int, i32::MAX as int) as i32
    }

    fn saturate_into(self) -> (r: i32) {
        let v = self as i128;
        if v < i32::MIN as i128 {
            i32::MIN
        } else if v > i32::MAX as i128 {
            i32::MAX
        } else {
            v as i32
        }
    }
}

impl SaturateInto<i64> for u64 {
    open spec fn saturated(self) -> i64 {
        pin(self as int, i64::MIN as int, i64::MAX as int) as i64
    }

    fn saturate_into(self) -> (r: i64) {
        let v = self as i128;
        if v < i64::MIN as i128 {
            i64::MIN
        } else if v > i64::MAX as i128 {
            i64::MAX
        } else {
            v as i64
        }
    }
}

impl SaturateInto<usize> for isize {
    open spec fn saturated(self) -> usize {
        pin(self as int, usize::MIN as int, usize::MAX as int) as usize
    }

    fn saturate_into(self) -> (r: usize) {
        let v = self as i128;
        if v < usize::MIN as i128 {
            usize::MIN
        } else if v > usize::MAX as i128 {
            usize::MAX
        } else {
            v as usize
        }
    }
}

impl SaturateInto<u32> for isize {
    open spec fn saturated(self) -> u32 {
        pin(self as int, u32::MIN as int, u32::MAX as int) as u32
    }

    fn saturate_into(self) -> (r: u32) {
        let v = self as i128;
        if v < u32::MIN as i128 {
            u32::MIN
        } else if v > u32::MAX as i128 {
            u32::MAX
        } else {
            v as u32
        }
    }
}

impl SaturateInto<u64> for isize {
    open spec fn saturated(self) -> u64 {
        pin(self as int, u64::MIN as int, u64::MAX as int) as u64
    }

    fn saturate_into(self) -> (r: u64) {
        let v = self as i128;
        if v < u64::MIN as i128 {
            u64::MIN
        } else if v > u64::MAX as i128 {
            u64::MAX
        } else {
            v as u64
        }
    }
}

impl SaturateInto<i32> for isize {
    open spec fn saturated(self) -> i32 {
        pin(self as int, i32::MIN as int, i32::MAX as int) as i32
    }

    fn saturate_into(self) -> (r: i32) {
        let v = self as i128;
        if v < i32::MIN as i128 {
            i32::MIN
        } else if v > i32::MAX as i128 {
            i32::MAX
        } else {
            v as i32
        }
    }
}

impl SaturateInto<i64> for isize {
    open spec fn saturated(self) -> i64 {
        pin(self as int, i64::MIN as int, i64::MAX as int) as i64
    }

    fn saturate_into(self) -> (r: i64) {
        let v = self as i128;
        if v < i64::MIN as i128 {
            i64::MIN
        } else if v > i64::MAX as i128 {
            i64::MAX
        } else {
            v as i64
        }
    }
}

impl SaturateInto<usize> for i32 {
    open spec fn saturated(self) -> usize {
        pin(self as int, usize::MIN as int, usize::MAX as int) as usize
    }

    fn saturate_into(self) -> (r: usize) {
        let v = self as i128;
        if v < usize::MIN as i128 {
            usize::MIN
        } else if v > usize::MAX as i128 {
            usize::MAX
        } else {
            v as usize
        }
    }
}

impl SaturateInto<u32> for i32 {
    open spec fn saturated(self) -> u32 {
        pin(self as int, u32::MIN as int, u32::MAX as int) as u32
    }

    fn saturate_into(self) -> (r: u32) {
        let v = self as i128;
        if v < u32::MIN as i128 {
            u32::MIN
        } else if v > u32::MAX as i128 {
            u32::MAX
        } else {
            v as u32
        }
    }
}

impl SaturateInto<u64> for i32 {
    open spec fn saturated(self) -> u64 {
        pin(self as int, u64::MIN as int, u64::MAX as int) as u64
    }

    fn saturate_into(self) -> (r: u64) {
        let v = self as i128;
        if v < u64::MIN as i128 {
            u64::MIN
        } else if v > u64::MAX as i128 {
            u64::MAX
        } else {
            v as u64
        }
    }
}

impl SaturateInto<isize> for i32 {
    open spec fn saturated(self) -> isize {
        pin(self as int, isize::MIN as int, isize::MAX as int) as isize
    }

    fn saturate_into(self) -> (r: isize) {
        let v = self as i128;
        if v < isize::MIN as i128 {
            isize::MIN
        } else if v > isize::MAX as i128 {
            isize::MAX
        } else {
            v as isize
        }
    }
}

impl SaturateInto<i64> for i32 {
    open spec fn saturated(self) -> i64 {
        pin(self as int, i64::MIN as int, i64::MAX as int) as i64
    }

    fn saturate_into(self) -> (r: i64) {
        let v = self as i128;
        if v < i64::MIN as i128 {
            i64::MIN
        } else if v > i64::MAX as i128 {
            i64::MAX
        } else {
            v as i64
        }
    }
}

impl SaturateInto<usize> for i64 {
    open spec fn saturated(self) -> usize {
        pin(self as int, usize::MIN as int, usize::MAX as int) as usize
    }

    fn saturate_into(self) -> (r: usize) {
        let v = self as i128;
        if v < usize::MIN as i128 {
            usize::MIN
        } else if v > usize::MAX as i128 {
            usize::MAX
        } else {
            v as usize
        }
    }
}

impl SaturateInto<u32> for i64 {
    open spec fn saturated(self) -> u32 {
        pin(self as int, u32::MIN as int, u32::MAX as int) as u32
    }

    fn saturate_into(self) -> (r: u32) {
        let v = self as i128;
        if v < u32::MIN as i128 {
            u32::MIN
        } else if v > u32::MAX as i128 {
            u32::MAX
        } else {
            v as u32
        }
    }
}

impl SaturateInto<u64> for i64 {
    open spec fn saturated(self) -> u64 {
        pin(self as int, u64::MIN as int, u64::MAX as int) as u64
    }

    fn saturate_into(self) -> (r: u64) {
        let v = self as i128;
        if v < u64::MIN as i128 {
            u64::MIN
        } else if v > u64::MAX as i128 {
            u64::MAX
        } else {
            v as u64
        }
    }
}

impl SaturateInto<isize> for i64 {
    open spec fn saturated(self) -> isize {
        pin(self as int, isize::MIN as int, isize::MAX as int) as isize
    }

    fn saturate_into(self) -> (r: isize) {
        let v = self as i128;
        if v < isize::MIN as i128 {
            isize::MIN
        } else if v > isize::MAX as i128 {
            isize::MAX
        } else {
            v as isize
        }
    }
}

impl SaturateInto<i32> for i64 {
    open spec fn saturated(self) -> i32 {
        pin(self as int, i32::MIN as int, i32::MAX as int) as i32
    }

    fn saturate_into(self) -> (r: i32) {
        let v = self as i128;
        if v < i32::MIN as i128 {
            i32::MIN
        } else if v > i32::MAX as i128 {
            i32::MAX
        } else {
            v as i32
        }
    }
}

} // verus!
