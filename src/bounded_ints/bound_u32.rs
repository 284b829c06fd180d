use vstd::prelude::*;
use super::{clamp, compare};

verus! {

/// A `u32` kept between `MIN` and `MAX`: every value that enters is clamped
/// into that range.
#[allow(non_camel_case_types)]
#[derive(Clone, Copy, Debug, Hash, Ord)]
pub struct BoundU32<const MIN: u32, const MAX: u32> {
    inner_value: u32,
}

/// `value` clamped into `[min, max]`: below `min` gives `min`, otherwise
/// above `max` gives `max`.
pub open spec fn clamp_u32(value: int, min: u32, max: u32) -> u32 {
    if value < min {
        min
    } else if value > max {
        max
    } else {
        value as u32
    }
}

/// An integer pinned to the range of `u32`.
pub open spec fn saturate_u32(x: int) -> u32 {
    clamp(x, 0, u32::MAX as int) as u32
}

/// What a conversion into a bounded `u32` keeps of `v`: below zero the
/// lower bound, above `u32::MAX` the upper bound, otherwise `v` clamped.
pub open spec fn convert_u32(v: int, min: u32, max: u32) -> u32 {
    if v < 0 {
        clamp_u32(min as int, min, max)
    } else if v > u32::MAX {
        clamp_u32(max as int, min, max)
    } else {
        clamp_u32(v, min, max)
    }
}

/// `a * b`, pinned to the range of `u32`.
fn saturating_mul_u32(a: u32, b: u32) -> (r: u32)
    ensures
        r == saturate_u32(a * b),
{
    proof {
        assert((a as int) * (b as int) <= (u32::MAX as int) * (u32::MAX as int)) by (nonlinear_arith)
            requires
                0 <= a <= u32::MAX,
                0 <= b <= u32::MAX,
        ;
        assert((u32::MAX as int) * (u32::MAX as int) <= (u64::MAX as int) * (u64::MAX as int)) by (nonlinear_arith);
    }
    let p: u128 = (a as u128) * (b as u128);
    if p > u32::MAX as u128 {
        u32::MAX
    } else {
        p as u32
    }
}

impl<const MIN: u32, const MAX: u32> BoundU32<MIN, MAX> {
    /// The value held.
    pub closed spec fn value(&self) -> u32 {
        self.inner_value
    }

    /// The bounded value that holds `v` as it is.
    pub closed spec fn with_value(v: u32) -> Self {
        Self { inner_value: v }
    }

    /// A bounded value built with `with_value` holds what it was given.
    pub broadcast proof fn lemma_with_value(v: u32)
        ensures
            #[trigger] Self::with_value(v).value() == v,
    {
    }

    /// Holds `value` clamped into the range.
    pub fn new(value: u32) -> (r: Self)
        ensures
            r.value() == clamp_u32(value as int, MIN, MAX),
    {
        if value < MIN {
            Self { inner_value: MIN }
        } else if value > MAX {
            Self { inner_value: MAX }
        } else {
            Self { inner_value: value }
        }
    }

    pub fn get(&self) -> (r: u32)
        ensures
            r == self.value(),
    {
        self.inner_value
    }

    /// Replaces the value by `value` clamped into the range, which must not
    /// be empty.
    pub fn set(&mut self, value: u32)
        requires
            MIN <= MAX,
        ensures
            final(self).value() == clamp_u32(value as int, MIN, MAX),
    {
        *self = Self::new(value);
    }
}

impl<const MIN: u32, const MAX: u32> Default for BoundU32<MIN, MAX> {
    fn default() -> (r: Self)
        ensures
            r.value() == clamp_u32(MIN as int, MIN, MAX),
    {
        Self::new(MIN)
    }
}

impl<const MIN: u32, const MAX: u32> std::ops::Deref for BoundU32<MIN, MAX> {
    type Target = u32;

    fn deref(&self) -> (r: &u32)
        ensures
            *r == self.value(),
    {
        &self.inner_value
    }
}

impl<const MIN: u32, const MAX: u32> PartialEq for BoundU32<MIN, MAX> {
    fn eq(&self, other: &Self) -> (r: bool) {
        self.inner_value == other.inner_value
    }
}

impl<const MIN: u32, const MAX: u32> vstd::std_specs::cmp::PartialEqSpecImpl for BoundU32<MIN, MAX> {
    open spec fn obeys_eq_spec() -> bool {
        true
    }

    open spec fn eq_spec(&self, other: &Self) -> bool {
        self.value() == other.value()
    }
}

impl<const MIN: u32, const MAX: u32> Eq for BoundU32<MIN, MAX> {
}

impl<const MIN: u32, const MAX: u32> PartialEq<u32> for BoundU32<MIN, MAX> {
    fn eq(&self, other: &u32) -> (r: bool) {
        self.inner_value == *other
    }
}

impl<const MIN: u32, const MAX: u32> vstd::std_specs::cmp::PartialEqSpecImpl<u32> for BoundU32<MIN, MAX> {
    open spec fn obeys_eq_spec() -> bool {
        true
    }

    open spec fn eq_spec(&self, other: &u32) -> bool {
        self.value() == *other
    }
}

impl<const MIN: u32, const MAX: u32> PartialEq<BoundU32<MIN, MAX>> for u32 {
    fn eq(&self, other: &BoundU32<MIN, MAX>) -> (r: bool) {
        *self == other.inner_value
    }
}

impl<const MIN: u32, const MAX: u32> vstd::std_specs::cmp::PartialEqSpecImpl<BoundU32<MIN, MAX>> for u32 {
    open spec fn obeys_eq_spec() -> bool {
        true
    }

    open spec fn eq_spec(&self, other: &BoundU32<MIN, MAX>) -> bool {
        *self == other.value()
    }
}

impl<const MIN: u32, const MAX: u32> PartialOrd for BoundU32<MIN, MAX> {
    fn partial_cmp(&self, other: &Self) -> (r: Option<std::cmp::Ordering>) {
        Some(order_u32(self.inner_value, other.inner_value))
    }
}

impl<const MIN: u32, const MAX: u32> vstd::std_specs::cmp::PartialOrdSpecImpl for BoundU32<MIN, MAX> {
    open spec fn obeys_partial_cmp_spec() -> bool {
        true
    }

    open spec fn partial_cmp_spec(&self, other: &Self) -> Option<std::cmp::Ordering> {
        Some(compare(self.value() as int, other.value() as int))
    }
}

impl<const MIN: u32, const MAX: u32> PartialOrd<u32> for BoundU32<MIN, MAX> {
    fn partial_cmp(&self, other: &u32) -> (r: Option<std::cmp::Ordering>) {
        Some(order_u32(self.inner_value, *other))
    }
}

impl<const MIN: u32, const MAX: u32> vstd::std_specs::cmp::PartialOrdSpecImpl<u32> for BoundU32<MIN, MAX> {
    open spec fn obeys_partial_cmp_spec() -> bool {
        true
    }

    open spec fn partial_cmp_spec(&self, other: &u32) -> Option<std::cmp::Ordering> {
        Some(compare(self.value() as int, *other as int))
    }
}

impl<const MIN: u32, const MAX: u32> PartialOrd<BoundU32<MIN, MAX>> for u32 {
    fn partial_cmp(&self, other: &BoundU32<MIN, MAX>) -> (r: Option<std::cmp::Ordering>) {
        Some(order_u32(*self, other.inner_value))
    }
}

impl<const MIN: u32, const MAX: u32> vstd::std_specs::cmp::PartialOrdSpecImpl<BoundU32<MIN, MAX>> for u32 {
    open spec fn obeys_partial_cmp_spec() -> bool {
        true
    }

    open spec fn partial_cmp_spec(&self, other: &BoundU32<MIN, MAX>) -> Option<std::cmp::Ordering> {
        Some(compare(*self as int, other.value() as int))
    }
}

/// The order of two `u32` values.
fn order_u32(a: u32, b: u32) -> (r: std::cmp::Ordering)
    ensures
        r == compare(a as int, b as int),
{
    if a < b {
        std::cmp::Ordering::Less
    } else if a == b {
        std::cmp::Ordering::Equal
    } else {
        std::cmp::Ordering::Greater
    }
}

impl<const MIN: u32, const MAX: u32> std::ops::Add for BoundU32<MIN, MAX> {
    type Output = Self;

    fn add(self, other: Self) -> (r: Self) {
        let a = self.inner_value;
        let b = other.inner_value;
        Self::new(a.saturating_add(b))
    }
}

impl<const MIN: u32, const MAX: u32> vstd::std_specs::ops::AddSpecImpl for BoundU32<MIN, MAX> {
    open spec fn obeys_add_spec() -> bool {
        true
    }

    open spec fn add_req(self, other: Self) -> bool {
        true
    }

    open spec fn add_spec(self, other: Self) -> Self {
        Self::with_value(clamp_u32(saturate_u32(self.value() + other.value()) as int, MIN, MAX))
    }
}

impl<const MIN: u32, const MAX: u32> std::ops::Add<u32> for BoundU32<MIN, MAX> {
    type Output = u32;

    fn add(self, other: u32) -> (r: u32) {
        let a = self.inner_value;
        let b = other;
        a.saturating_add(b)
    }
}

impl<const MIN: u32, const MAX: u32> vstd::std_specs::ops::AddSpecImpl<u32> for BoundU32<MIN, MAX> {
    open spec fn obeys_add_spec() -> bool {
        true
    }

    open spec fn add_req(self, other: u32) -> bool {
        true
    }

    open spec fn add_spec(self, other: u32) -> u32 {
        saturate_u32(self.value() + other)
    }
}

impl<const MIN: u32, const MAX: u32> std::ops::Add<BoundU32<MIN, MAX>> for u32 {
    type Output = u32;

    fn add(self, other: BoundU32<MIN, MAX>) -> (r: u32) {
        let a = self;
        let b = other.inner_value;
        a.saturating_add(b)
    }
}

impl<const MIN: u32, const MAX: u32> vstd::std_specs::ops::AddSpecImpl<BoundU32<MIN, MAX>> for u32 {
    open spec fn obeys_add_spec() -> bool {
        true
    }

    open spec fn add_req(self, other: BoundU32<MIN, MAX>) -> bool {
        true
    }

    open spec fn add_spec(self, other: BoundU32<MIN, MAX>) -> u32 {
        saturate_u32(self + other.value())
    }
}

impl<const MIN: u32, const MAX: u32> std::ops::AddAssign for BoundU32<MIN, MAX> {
    fn add_assign(&mut self, other: Self) {
        let a = self.inner_value;
        let b = other.inner_value;
        *self = Self::new(a.saturating_add(b));
    }
}

impl<const MIN: u32, const MAX: u32> std::ops::AddAssign<u32> for BoundU32<MIN, MAX> {
    fn add_assign(&mut self, other: u32) {
        let a = self.inner_value;
        let b = other;
        *self = Self::new(a.saturating_add(b));
    }
}

impl<const MIN: u32, const MAX: u32> std::ops::AddAssign<BoundU32<MIN, MAX>> for u32 {
    fn add_assign(&mut self, other: BoundU32<MIN, MAX>) {
        let a = *self;
        let b = other.inner_value;
        *self = a.saturating_add(b);
    }
}

impl<const MIN: u32, const MAX: u32> std::ops::Sub for BoundU32<MIN, MAX> {
    type Output = Self;

    fn sub(self, other: Self) -> (r: Self) {
        let a = self.inner_value;
        let b = other.inner_value;
        Self::new(a.saturating_sub(b))
    }
}

impl<const MIN: u32, const MAX: u32> vstd::std_specs::ops::SubSpecImpl for BoundU32<MIN, MAX> {
    open spec fn obeys_sub_spec() -> bool {
        true
    }

    open spec fn sub_req(self, other: Self) -> bool {
        true
    }

    open spec fn sub_spec(self, other: Self) -> Self {
        Self::with_value(clamp_u32(saturate_u32(self.value() - other.value()) as int, MIN, MAX))
    }
}

impl<const MIN: u32, const MAX: u32> std::ops::Sub<u32> for BoundU32<MIN, MAX> {
    type Output = u32;

    fn sub(self, other: u32) -> (r: u32) {
        let a = self.inner_value;
        let b = other;
        a.saturating_sub(b)
    }
}

impl<const MIN: u32, const MAX: u32> vstd::std_specs::ops::SubSpecImpl<u32> for BoundU32<MIN, MAX> {
    open spec fn obeys_sub_spec() -> bool {
        true
    }

    open spec fn sub_req(self, other: u32) -> bool {
        true
    }

    open spec fn sub_spec(self, other: u32) -> u32 {
        saturate_u32(self.value() - other)
    }
}

impl<const MIN: u32, const MAX: u32> std::ops::Sub<BoundU32<MIN, MAX>> for u32 {
    type Output = u32;

    fn sub(self, other: BoundU32<MIN, MAX>) -> (r: u32) {
        let a = self;
        let b = other.inner_value;
        a.saturating_sub(b)
    }
}

impl<const MIN: u32, const MAX: u32> vstd::std_specs::ops::SubSpecImpl<BoundU32<MIN, MAX>> for u32 {
    open spec fn obeys_sub_spec() -> bool {
        true
    }

    open spec fn sub_req(self, other: BoundU32<MIN, MAX>) -> bool {
        true
    }

    open spec fn sub_spec(self, other: BoundU32<MIN, MAX>) -> u32 {
        saturate_u32(self - other.value())
    }
}

impl<const MIN: u32, const MAX: u32> std::ops::SubAssign for BoundU32<MIN, MAX> {
    fn sub_assign(&mut self, other: Self) {
        let a = self.inner_value;
        let b = other.inner_value;
        *self = Self::new(a.saturating_sub(b));
    }
}

impl<const MIN: u32, const MAX: u32> std::ops::SubAssign<u32> for BoundU32<MIN, MAX> {
    fn sub_assign(&mut self, other: u32) {
        let a = self.inner_value;
        let b = other;
        *self = Self::new(a.saturating_sub(b));
    }
}

impl<const MIN: u32, const MAX: u32> std::ops::SubAssign<BoundU32<MIN, MAX>> for u32 {
    fn sub_assign(&mut self, other: BoundU32<MIN, MAX>) {
        let a = *self;
        let b = other.inner_value;
        *self = a.saturating_sub(b);
    }
}

impl<const MIN: u32, const MAX: u32> std::ops::Mul for BoundU32<MIN, MAX> {
    type Output = Self;

    fn mul(self, other: Self) -> (r: Self) {
        let a = self.inner_value;
        let b = other.inner_value;
        Self::new(saturating_mul_u32(a, b))
    }
}

impl<const MIN: u32, const MAX: u32> vstd::std_specs::ops::MulSpecImpl for BoundU32<MIN, MAX> {
    open spec fn obeys_mul_spec() -> bool {
        true
    }

    open spec fn mul_req(self, other: Self) -> bool {
        true
    }

    open spec fn mul_spec(self, other: Self) -> Self {
        Self::with_value(clamp_u32(saturate_u32(self.value() * other.value()) as int, MIN, MAX))
    }
}

impl<const MIN: u32, const MAX: u32> std::ops::Mul<u32> for BoundU32<MIN, MAX> {
    type Output = u32;

    fn mul(self, other: u32) -> (r: u32) {
        let a = self.inner_value;
        let b = other;
        saturating_mul_u32(a, b)
    }
}

impl<const MIN: u32, const MAX: u32> vstd::std_specs::ops::MulSpecImpl<u32> for BoundU32<MIN, MAX> {
    open spec fn obeys_mul_spec() -> bool {
        true
    }

    open spec fn mul_req(self, other: u32) -> bool {
        true
    }

    open spec fn mul_spec(self, other: u32) -> u32 {
        saturate_u32(self.value() * other)
    }
}

impl<const MIN: u32, const MAX: u32> std::ops::Mul<BoundU32<MIN, MAX>> for u32 {
    type Output = u32;

    fn mul(self, other: BoundU32<MIN, MAX>) -> (r: u32) {
        let a = self;
        let b = other.inner_value;
        saturating_mul_u32(a, b)
    }
}

impl<const MIN: u32, const MAX: u32> vstd::std_specs::ops::MulSpecImpl<BoundU32<MIN, MAX>> for u32 {
    open spec fn obeys_mul_spec() -> bool {
        true
    }

    open spec fn mul_req(self, other: BoundU32<MIN, MAX>) -> bool {
        true
    }

    open spec fn mul_spec(self, other: BoundU32<MIN, MAX>) -> u32 {
        saturate_u32(self * other.value())
    }
}

impl<const MIN: u32, const MAX: u32> std::ops::MulAssign for BoundU32<MIN, MAX> {
    fn mul_assign(&mut self, other: Self) {
        let a = self.inner_value;
        let b = other.inner_value;
        *self = Self::new(saturating_mul_u32(a, b));
    }
}

impl<const MIN: u32, const MAX: u32> std::ops::MulAssign<u32> for BoundU32<MIN, MAX> {
    fn mul_assign(&mut self, other: u32) {
        let a = self.inner_value;
        let b = other;
        *self = Self::new(saturating_mul_u32(a, b));
    }
}

impl<const MIN: u32, const MAX: u32> std::ops::MulAssign<BoundU32<MIN, MAX>> for u32 {
    fn mul_assign(&mut self, other: BoundU32<MIN, MAX>) {
        let a = *self;
        let b = other.inner_value;
        *self = saturating_mul_u32(a, b);
    }
}

impl<const MIN: u32, const MAX: u32> std::ops::Div for BoundU32<MIN, MAX> {
    type Output = Self;

    fn div(self, other: Self) -> (r: Self) {
        let a = self.inner_value;
        let b = other.inner_value;
        Self::new(a / b)
    }
}

impl<const MIN: u32, const MAX: u32> vstd::std_specs::ops::DivSpecImpl for BoundU32<MIN, MAX> {
    open spec fn obeys_div_spec() -> bool {
        true
    }

    open spec fn div_req(self, other: Self) -> bool {
        other.value() != 0
    }

    open spec fn div_spec(self, other: Self) -> Self {
        Self::with_value(clamp_u32((self.value() / other.value()) as u32 as int, MIN, MAX))
    }
}

impl<const MIN: u32, const MAX: u32> std::ops::Div<u32> for BoundU32<MIN, MAX> {
    type Output = u32;

    fn div(self, other: u32) -> (r: u32) {
        let a = self.inner_value;
        let b = other;
        a / b
    }
}

impl<const MIN: u32, const MAX: u32> vstd::std_specs::ops::DivSpecImpl<u32> for BoundU32<MIN, MAX> {
    open spec fn obeys_div_spec() -> bool {
        true
    }

    open spec fn div_req(self, other: u32) -> bool {
        other != 0
    }

    open spec fn div_spec(self, other: u32) -> u32 {
        (self.value() / other) as u32
    }
}

impl<const MIN: u32, const MAX: u32> std::ops::Div<BoundU32<MIN, MAX>> for u32 {
    type Output = u32;

    fn div(self, other: BoundU32<MIN, MAX>) -> (r: u32) {
        let a = self;
        let b = other.inner_value;
        a / b
    }
}

impl<const MIN: u32, const MAX: u32> vstd::std_specs::ops::DivSpecImpl<BoundU32<MIN, MAX>> for u32 {
    open spec fn obeys_div_spec() -> bool {
        true
    }

    open spec fn div_req(self, other: BoundU32<MIN, MAX>) -> bool {
        other.value() != 0
    }

    open spec fn div_spec(self, other: BoundU32<MIN, MAX>) -> u32 {
        (self / other.value()) as u32
    }
}

impl<const MIN: u32, const MAX: u32> std::ops::Rem for BoundU32<MIN, MAX> {
    type Output = Self;

    fn rem(self, other: Self) -> (r: Self) {
        let a = self.inner_value;
        let b = other.inner_value;
        Self::new(if b == 0 { 0 } else { a % b })
    }
}

impl<const MIN: u32, const MAX: u32> vstd::std_specs::ops::RemSpecImpl for BoundU32<MIN, MAX> {
    open spec fn obeys_rem_spec() -> bool {
        true
    }

    open spec fn rem_req(self, other: Self) -> bool {
        true
    }

    open spec fn rem_spec(self, other: Self) -> Self {
        Self::with_value(clamp_u32((if other.value() == 0 { 0 } else { self.value() % other.value() }) as u32 as int, MIN, MAX))
    }
}

impl<const MIN: u32, const MAX: u32> std::ops::Rem<u32> for BoundU32<MIN, MAX> {
    type Output = u32;

    fn rem(self, other: u32) -> (r: u32) {
        let a = self.inner_value;
        let b = other;
        if b == 0 { 0 } else { a % b }
    }
}

impl<const MIN: u32, const MAX: u32> vstd::std_specs::ops::RemSpecImpl<u32> for BoundU32<MIN, MAX> {
    open spec fn obeys_rem_spec() -> bool {
        true
    }

    open spec fn rem_req(self, other: u32) -> bool {
        true
    }

    open spec fn rem_spec(self, other: u32) -> u32 {
        (if other == 0 { 0 } else { self.value() % other }) as u32
    }
}

impl<const MIN: u32, const MAX: u32> std::ops::Rem<BoundU32<MIN, MAX>> for u32 {
    type Output = u32;

    fn rem(self, other: BoundU32<MIN, MAX>) -> (r: u32) {
        let a = self;
        let b = other.inner_value;
        if b == 0 { 0 } else { a % b }
    }
}

impl<const MIN: u32, const MAX: u32> vstd::std_specs::ops::RemSpecImpl<BoundU32<MIN, MAX>> for u32 {
    open spec fn obeys_rem_spec() -> bool {
        true
    }

    open spec fn rem_req(self, other: BoundU32<MIN, MAX>) -> bool {
        true
    }

    open spec fn rem_spec(self, other: BoundU32<MIN, MAX>) -> u32 {
        (if other.value() == 0 { 0 } else { self % other.value() }) as u32
    }
}

impl<const MIN: u32, const MAX: u32> std::ops::RemAssign for BoundU32<MIN, MAX> {
    fn rem_assign(&mut self, other: Self) {
        let a = self.inner_value;
        let b = other.inner_value;
        *self = Self::new(if b == 0 { MIN } else { a % b });
    }
}

impl<const MIN: u32, const MAX: u32> std::ops::RemAssign<u32> for BoundU32<MIN, MAX> {
    fn rem_assign(&mut self, other: u32) {
        let a = self.inner_value;
        let b = other;
        *self = Self::new(if b == 0 { MIN } else { a % b });
    }
}

impl<const MIN: u32, const MAX: u32> std::ops::RemAssign<BoundU32<MIN, MAX>> for u32 {
    fn rem_assign(&mut self, other: BoundU32<MIN, MAX>) {
        let a = *self;
        let b = other.inner_value;
        *self = if b == 0 { 0 } else { a % b };
    }
}

impl<const MIN: u32, const MAX: u32> From<u32> for BoundU32<MIN, MAX> {
    fn from(value: u32) -> (r: Self) {
        Self::new(value)
    }
}

impl<const MIN: u32, const MAX: u32> vstd::std_specs::convert::FromSpecImpl<u32> for BoundU32<MIN, MAX> {
    open spec fn obeys_from_spec() -> bool {
        true
    }

    open spec fn from_spec(value: u32) -> Self {
        Self::with_value(convert_u32(value as int, MIN, MAX))
    }
}

impl<const MIN: u32, const MAX: u32> From<BoundU32<MIN, MAX>> for u32 {
    fn from(value: BoundU32<MIN, MAX>) -> (r: u32) {
        value.inner_value
    }
}

impl<const MIN: u32, const MAX: u32> vstd::std_specs::convert::FromSpecImpl<BoundU32<MIN, MAX>> for u32 {
    open spec fn obeys_from_spec() -> bool {
        true
    }

    open spec fn from_spec(value: BoundU32<MIN, MAX>) -> u32 {
        value.value()
    }
}

} // verus!
