//! Clamping for signed integers, for bounded types whose limits are given
//! at run time.
use vstd::prelude::*;

verus! {

/// `value` clamped into `[min, max]`: below `min` gives `min`, otherwise
/// above `max` gives `max`.
pub fn clamp_i8(value: i8, min: i8, max: i8) -> (r: i8)
    ensures
        r == if value < min {
            min
        } else if value > max {
            max
        } else {
            value
        },
{
    if value < min {
        min
    } else if value > max {
        max
    } else {
        value
    }
}

/// `value` clamped into `[min, max]`: below `min` gives `min`, otherwise
/// above `max` gives `max`.
pub fn clamp_i16(value: i16, min: i16, max: i16) -> (r: i16)
    ensures
        r == if value < min {
            min
        } else if value > max {
            max
        } else {
            value
        },
{
    if value < min {
        min
    } else if value > max {
        max
    } else {
        value
    }
}

/// `value` clamped into `[min, max]`: below `min` gives `min`, otherwise
/// above `max` gives `max`.
pub fn clamp_i32(value: i32, min: i32, max: i32) -> (r: i32)
    ensures
        r == if value < min {
            min
        } else if value > max {
            max
        } else {
            value
        },
{
    if value < min {
        min
    } else if value > max {
        max
    } else {
        value
    }
}

/// `value` clamped into `[min, max]`: below `min` gives `min`, otherwise
/// above `max` gives `max`.
pub fn clamp_i64(value: i64, min: i64, max: i64) -> (r: i64)
    ensures
        r == if value < min {
            min
        } else if value > max {
            max
        } else {
            value
        },
{
    if value < min {
        min
    } else if value > max {
        max
    } else {
        value
    }
}

/// `value` clamped into `[min, max]`: below `min` gives `min`, otherwise
/// above `max` gives `max`.
pub fn clamp_isize(value: isize, min: isize, max: isize) -> (r: isize)
    ensures
        r == if value < min {
            min
        } else if value > max {
            max
        } else {
            value
        },
{
    if value < min {
        min
    } else if value > max {
        max
    } else {
        value
    }
}

} // verus!
