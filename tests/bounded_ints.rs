use collection_utils::bounded_ints::bound_usize::BoundUSize;

#[test]
fn test_create_boundusize_within_bounds() {
    let boundusize = BoundUSize::<0, 10>::new(5);
    assert_eq!(boundusize.get(), 5);
}

#[test]
fn test_create_boundusize_greater_than_maximum() {
    let boundusize = BoundUSize::<0, 10>::new(15);
    assert_eq!(boundusize.get(), 10);
}

#[test]
fn test_create_boundusize_less_than_minimum() {
    let boundusize = BoundUSize::<2, 10>::new(1);
    assert_eq!(boundusize.get(), 2);
}

#[test]
fn test_set_boundusize_within_bounds() {
    let mut boundusize = BoundUSize::<0, 10>::new(5);
    boundusize.set(7);
    assert_eq!(boundusize.get(), 7);
}

#[test]
fn test_convert_boundusize_maximum_value_to_usize() {
    let boundusize = BoundUSize::<0, 10>::new(15);
    let value: usize = boundusize.into();
    assert_eq!(value, 10);
}

#[test]
fn convert_boundusize_to_usize_returns_inner_value() {
    let bound_usize: BoundUSize<0, 10> = BoundUSize::new(5);
    let inner_value: usize = bound_usize.into();
    assert_eq!(inner_value, 5);
}

#[test]
fn convert_usize_within_bounds_returns_same_value() {
    let value: usize = 10;
    let bound: BoundUSize<0, 100> = BoundUSize::from(value);
    assert_eq!(bound.get(), value);
}

#[test]
fn convert_usize_to_boundusize_with_greater_value() {
    let value: usize = 100;
    let bound_usize: BoundUSize<0, 50> = BoundUSize::from(value);
    assert_eq!(bound_usize.get(), 50);
}

#[test]
fn convert_usize_to_boundusize_with_value_less_than_minimum_returns_minimum() {
    let value: usize = 5;
    let bound: BoundUSize<10, 20> = BoundUSize::from(value);
    assert_eq!(bound.get(), 10);
}

use collection_utils::bounded_ints::bound_u16::B_u16;
use collection_utils::bounded_ints::bound_u32::BoundU32;
use collection_utils::bounded_ints::bound_u64::BoundU64;
use collection_utils::bounded_ints::bound_u8::B_u8;
use collection_utils::saturate::{SaturateEq, SaturateInto};

#[test]
fn addition_saturates_then_clamps() {
    let a = B_u8::<0, 200>::new(150);
    let b = B_u8::<0, 200>::new(150);
    assert_eq!((a + b).get(), 200);
    assert_eq!(a + 200u8, 255);
    assert_eq!(200u8 + a, 255);
}

#[test]
fn subtraction_saturates_at_zero_then_clamps() {
    let a = BoundU32::<5, 100>::new(10);
    let b = BoundU32::<5, 100>::new(50);
    assert_eq!((a - b).get(), 5);
    assert_eq!(a - 20u32, 0);
    assert_eq!(3u32 - a, 0);
}

#[test]
fn multiplication_saturates() {
    let a = BoundU64::<0, { u64::MAX }>::new(u64::MAX / 2);
    assert_eq!(a * 3u64, u64::MAX);
    let b = B_u16::<0, 1000>::new(300);
    assert_eq!((b * b).get(), 1000);
    assert_eq!(b * 2u16, 600);
}

#[test]
fn division_and_remainder() {
    let a = B_u8::<1, 50>::new(47);
    let b = B_u8::<1, 50>::new(5);
    assert_eq!((a / b).get(), 9);
    assert_eq!((a % b).get(), 2);
    assert_eq!(a % 0u8, 0);
    assert_eq!(100u8 / b, 20);
    let mut c = B_u8::<3, 50>::new(20);
    c %= 0u8;
    assert_eq!(c.get(), 3);
}

#[test]
fn assignment_operators_clamp() {
    let mut a = B_u16::<10, 20>::new(15);
    a += 10u16;
    assert_eq!(a.get(), 20);
    a -= B_u16::<10, 20>::new(15);
    assert_eq!(a.get(), 10);
    a *= 2u16;
    assert_eq!(a.get(), 20);
    let mut raw: u16 = 7;
    raw += a;
    assert_eq!(raw, 27);
}

#[test]
fn conversions_saturate_into_the_range() {
    assert_eq!(B_u8::<0, 100>::from(1000u32).get(), 100);
    assert_eq!(B_u8::<5, 100>::from(-3i64).get(), 5);
    assert_eq!(B_u8::<0, 100>::from(42i16).get(), 42);
    assert_eq!(B_u16::<0, 60000>::from(u128::MAX).get(), 60000);
    let inner: u64 = BoundU64::<0, 9>::new(12).into();
    assert_eq!(inner, 9);
}

#[test]
fn ordering_and_default() {
    let a = BoundU32::<2, 9>::default();
    assert_eq!(a.get(), 2);
    assert!(a < BoundU32::<2, 9>::new(3));
    assert!(a <= 2u32);
    assert!(1u32 < a);
    assert_eq!(*a, 2);
}

#[test]
fn saturating_conversions_between_integer_types() {
    let big: usize = usize::MAX;
    let small: u32 = big.saturate_into();
    assert_eq!(small, u32::MAX);
    let negative: i64 = -5;
    let unsigned: u64 = negative.saturate_into();
    assert_eq!(unsigned, 0);
    let wide: i64 = i64::MIN;
    let narrow: i32 = wide.saturate_into();
    assert_eq!(narrow, i32::MIN);
    let same: u32 = 17u32.saturate_into();
    assert_eq!(same, 17);
    assert!(300u64.saturate_eq(300usize));
    assert!((-1i32).saturate_eq(0u32));
}
