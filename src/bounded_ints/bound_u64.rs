use vstd::prelude::*;
use super::{clamp, compare};

verus! {

/// A `u64` kept between `MIN` and `MAX`: every value that enters is clamped
/// into that range.
#[allow(non_camel_case_types)]
#[derive(Clone, Copy, Debug, Hash, Ord)]
pub struct BoundU64<const MIN: u64, const MAX: u64> {
    inner_value: u64,
}

/// `value` clamped into `[min, max]`: below `min` gives `min`, otherwise
/// above `max` gives `max`.
pub open spec fn clamp_u64(value: int, min: u64, max: u64) -> u64 {
    if value < min {
        min
    } else if value > max {
        max
    } else {
        value as u64
    }
}

/// An integer pinned to the range of `u64`.
pub open spec fn saturate_u64(x: int) -> u64 {
    clamp(x, 0, u64::MAX as int) as u64
}

/// What a conversion into a bounded `u64` keeps of `v`: below zero the
/// lower bound, above `u64::MAX` the upper bound, otherwise `v` clamped.
pub open spec fn convert_u64(v: int, min: u64, max: u64) -> u64 {
    if v < 0 {
        clamp_u64(min as int, min, max)
    } else if v > u64::MAX {
        clamp_u64(max as int, min, max)
    } else {
        clamp_u64(v, min, max)
    }
}

/// `a * b`, pinned to the range of `u64`.
fn saturating_mul_u64(a: u64, b: u64) -> (r: u64)
    ensures
        r == saturate_u64(a * b),
{
    proof {
        assert((a as int) * (b as int) <= (u64::MAX as int) * (u64::MAX as int)) by (nonlinear_arith)
            requires
                0 <= a <= u64::MAX,
                0 <= b <= u64::MAX,
        ;
        assert((u64::MAX as int) * (u64::MAX as int) <= (u64::MAX as int) * (u64::MAX as int)) by (nonlinear_arith);
    }
    let p: u128 = (a as u128) * (b as u128);
    if p > u64::MAX as u128 {
        u64::MAX
    } else {
        p as u64
    }
}

impl<const MIN: u64, const MAX: u64> BoundU64<MIN, MAX> {
    /// The value held.
    pub closed spec fn value(&self) -> u64 {
        self.inner_value
    }

    /// The bounded value that holds `v` as it is.
    pub closed spec fn with_value(v: u64) -> Self {
        Self { inner_value: v }
    }

    /// A bounded value built with `with_value` holds what it was given.
    pub broadcast proof fn lemma_with_value(v: u64)
        ensures
            #[trigger] Self::with_value(v).value() == v,
    {
    }

    /// Holds `value` clamped into the range.
    pub fn new(value: u64) -> (r: Self)
        ensures
            r.value() == clamp_u64(value as int, MIN, MAX),
    {
        if value < MIN {
            Self { inner_value: MIN }
        } else if value > MAX {
            Self { inner_value: MAX }
        } else {
            Self { inner_value: value }
        }
    }

    pub fn get(&self) -> (r: u64)
        ensures
            r == self.value(),
    {
        self.inner_value
    }

    /// Replaces the value by `value` clamped into the range, which must not
    /// be empty.
    pub fn set(&mut self, value: u64)
        requires
            MIN <= MAX,
        ensures
            final(self).value() == clamp_u64(value as int, MIN, MAX),
    {
        *self = Self::new(value);
    }
}

impl<const MIN: u64, const MAX: u64> Default for BoundU64<MIN, MAX> {
    fn default() -> (r: Self)
        ensures
            r.value() == clamp_u64(MIN as int, MIN, MAX),
    {
        Self::new(MIN)
    }
}

impl<const MIN: u64, const MAX: u64> std::ops::Deref for BoundU64<MIN, MAX> {
    type Target = u64;

    fn deref(&self) -> (r: &u64)
        ensures
            *r == self.value(),
    {
        &self.inner_value
    }
}

impl<const MIN: u64, const MAX: u64> PartialEq for BoundU64<MIN, MAX> {
    fn eq(&self, other: &Self) -> (r: bool) {
        self.inner_value == other.inner_value
    }
}

impl<const MIN: u64, const MAX: u64> vstd::std_specs::cmp::PartialEqSpecImpl for BoundU64<MIN, MAX> {
    open spec fn obeys_eq_spec() -> bool {
        true
    }

    open spec fn eq_spec(&self, other: &Self) -> bool {
        self.value() == other.value()
    }
}

impl<const MIN: u64, const MAX: u64> Eq for BoundU64<MIN, MAX> {
}

impl<const MIN: u64, const MAX: u64> PartialEq<u64> for BoundU64<MIN, MAX> {
    fn eq(&self, other: &u64) -> (r: bool) {
        self.inner_value == *other
    }
}

impl<const MIN: u64, const MAX: u64> vstd::std_specs::cmp::PartialEqSpecImpl<u64> for BoundU64<MIN, MAX> {
    open spec fn obeys_eq_spec() -> bool {
        true
    }

    open spec fn eq_spec(&self, other: &u64) -> bool {
        self.value() == *other
    }
}

impl<const MIN: u64, const MAX: u64> PartialEq<BoundU64<MIN, MAX>> for u64 {
    fn eq(&self, other: &BoundU64<MIN, MAX>) -> (r: bool) {
        *self == other.inner_value
    }
}

impl<const MIN: u64, const MAX: u64> vstd::std_specs::cmp::PartialEqSpecImpl<BoundU64<MIN, MAX>> for u64 {
    open spec fn obeys_eq_spec() -> bool {
        true
    }

    open spec fn eq_spec(&self, other: &BoundU64<MIN, MAX>) -> bool {
        *self == other.value()
    }
}

impl<const MIN: u64, const MAX: u64> PartialOrd for BoundU64<MIN, MAX> {
    fn partial_cmp(&self, other: &Self) -> (r: Option<std::cmp::Ordering>) {
        Some(order_u64(self.inner_value, other.inner_value))
    }
}

impl<const MIN: u64, const MAX: u64> vstd::std_specs::cmp::PartialOrdSpecImpl for BoundU64<MIN, MAX> {
    open spec fn obeys_partial_cmp_spec() -> bool {
        true
    }

    open spec fn partial_cmp_spec(&self, other: &Self) -> Option<std::cmp::Ordering> {
        Some(compare(self.value() as int, other.value() as int))
    }
}

impl<const MIN: u64, const MAX: u64> PartialOrd<u64> for BoundU64<MIN, MAX> {
    fn partial_cmp(&self, other: &u64) -> (r: Option<std::cmp::Ordering>) {
        Some(order_u64(self.inner_value, *other))
    }
}

impl<const MIN: u64, const MAX: u64> vstd::std_specs::cmp::PartialOrdSpecImpl<u64> for BoundU64<MIN, MAX> {
    open spec fn obeys_partial_cmp_spec() -> bool {
        true
    }

    open spec fn partial_cmp_spec(&self, other: &u64) -> Option<std::cmp::Ordering> {
        Some(compare(self.value() as int, *other as int))
    }
}

impl<const MIN: u64, const MAX: u64> PartialOrd<BoundU64<MIN, MAX>> for u64 {
    fn partial_cmp(&self, other: &BoundU64<MIN, MAX>) -> (r: Option<std::cmp::Ordering>) {
        Some(order_u64(*self, other.inner_value))
    }
}

impl<const MIN: u64, const MAX: u64> vstd::std_specs::cmp::PartialOrdSpecImpl<BoundU64<MIN, MAX>> for u64 {
    open spec fn obeys_partial_cmp_spec() -> bool {
        true
    }

    open spec fn partial_cmp_spec(&self, other: &BoundU64<MIN, MAX>) -> Option<std::cmp::Ordering> {
        Some(compare(*self as int, other.value() as int))
    }
}

/// The order of two `u64` values.
fn order_u64(a: u64, b: u64) -> (r: std::cmp::Ordering)
    ensures
        r == compare(a as int, b as int),
{
    if a < b {
        std::cmp::Ordering::Less
    } else if a == b {
        std::cmp::Ordering::Equal
    } else {
        std::cmp::Ordering::Greater
    }
}

impl<const MIN: u64, const MAX: u64> std::ops::Add for BoundU64<MIN, MAX> {
    type Output = Self;

    fn add(self, other: Self) -> (r: Self) {
        let a = self.inner_value;
        let b = other.inner_value;
        Self::new(a.saturating_add(b))
    }
}

impl<const MIN: u64, const MAX: u64> vstd::std_specs::ops::AddSpecImpl for BoundU64<MIN, MAX> {
    open spec fn obeys_add_spec() -> bool {
        true
    }

    open spec fn add_req(self, other: Self) -> bool {
        true
    }

    open spec fn add_spec(self, other: Self) -> Self {
        Self::with_value(clamp_u64(saturate_u64(self.value() + other.value()) as int, MIN, MAX))
    }
}

impl<const MIN: u64, const MAX: u64> std::ops::Add<u64> for BoundU64<MIN, MAX> {
    type Output = u64;

    fn add(self, other: u64) -> (r: u64) {
        let a = self.inner_value;
        let b = other;
        a.saturating_add(b)
    }
}

impl<const MIN: u64, const MAX: u64> vstd::std_specs::ops::AddSpecImpl<u64> for BoundU64<MIN, MAX> {
    open spec fn obeys_add_spec() -> bool {
        true
    }

    open spec fn add_req(self, other: u64) -> bool {
        true
    }

    open spec fn add_spec(self, other: u64) -> u64 {
        saturate_u64(self.value() + other)
    }
}

impl<const MIN: u64, const MAX: u64> std::ops::Add<BoundU64<MIN, MAX>> for u64 {
    type Output = u64;

    fn add(self, other: BoundU64<MIN, MAX>) -> (r: u64) {
        let a = self;
        let b = other.inner_value;
        a.saturating_add(b)
    }
}

impl<const MIN: u64, const MAX: u64> vstd::std_specs::ops::AddSpecImpl<BoundU64<MIN, MAX>> for u64 {
    open spec fn obeys_add_spec() -> bool {
        true
    }

    open spec fn add_req(self, other: BoundU64<MIN, MAX>) -> bool {
        true
    }

    open spec fn add_spec(self, other: BoundU64<MIN, MAX>) -> u64 {
        saturate_u64(self + other.value())
    }
}

impl<const MIN: u64, const MAX: u64> std::ops::AddAssign for BoundU64<MIN, MAX> {
    fn add_assign(&mut self, other: Self) {
        let a = self.inner_value;
        let b = other.inner_value;
        *self = Self::new(a.saturating_add(b));
    }
}

impl<const MIN: u64, const MAX: u64> std::ops::AddAssign<u64> for BoundU64<MIN, MAX> {
    fn add_assign(&mut self, other: u64) {
        let a = self.inner_value;
        let b = other;
        *self = Self::new(a.saturating_add(b));
    }
}

impl<const MIN: u64, const MAX: u64> std::ops::AddAssign<BoundU64<MIN, MAX>> for u64 {
    fn add_assign(&mut self, other: BoundU64<MIN, MAX>) {
        let a = *self;
        let b = other.inner_value;
        *self = a.saturating_add(b);
    }
}

impl<const MIN: u64, const MAX: u64> std::ops::Sub for BoundU64<MIN, MAX> {
    type Output = Self;

    fn sub(self, other: Self) -> (r: Self) {
        let a = self.inner_value;
        let b = other.inner_value;
        Self::new(a.saturating_sub(b))
    }
}

impl<const MIN: u64, const MAX: u64> vstd::std_specs::ops::SubSpecImpl for BoundU64<MIN, MAX> {
    open spec fn obeys_sub_spec() -> bool {
        true
    }

    open spec fn sub_req(self, other: Self) -> bool {
        true
    }

    open spec fn sub_spec(self, other: Self) -> Self {
        Self::with_value(clamp_u64(saturate_u64(self.value() - other.value()) as int, MIN, MAX))
    }
}

impl<const MIN: u64, const MAX: u64> std::ops::Sub<u64> for BoundU64<MIN, MAX> {
    type Output = u64;

    fn sub(self, other: u64) -> (r: u64) {
        let a = self.inner_value;
        let b = other;
        a.saturating_sub(b)
    }
}

impl<const MIN: u64, const MAX: u64> vstd::std_specs::ops::SubSpecImpl<u64> for BoundU64<MIN, MAX> {
    open spec fn obeys_sub_spec() -> bool {
        true
    }

    open spec fn sub_req(self, other: u64) -> bool {
        true
    }

    open spec fn sub_spec(self, other: u64) -> u64 {
        saturate_u64(self.value() - other)
    }
}

impl<const MIN: u64, const MAX: u64> std::ops::Sub<BoundU64<MIN, MAX>> for u64 {
    type Output = u64;

    fn sub(self, other: BoundU64<MIN, MAX>) -> (r: u64) {
        let a = self;
        let b = other.inner_value;
        a.saturating_sub(b)
    }
}

impl<const MIN: u64, const MAX: u64> vstd::std_specs::ops::SubSpecImpl<BoundU64<MIN, MAX>> for u64 {
    open spec fn obeys_sub_spec() -> bool {
        true
    }

    open spec fn sub_req(self, other: BoundU64<MIN, MAX>) -> bool {
        true
    }

    open spec fn sub_spec(self, other: BoundU64<MIN, MAX>) -> u64 {
        saturate_u64(self - other.value())
    }
}

impl<const MIN: u64, const MAX: u64> std::ops::SubAssign for BoundU64<MIN, MAX> {
    fn sub_assign(&mut self, other: Self) {
        let a = self.inner_value;
        let b = other.inner_value;
        *self = Self::new(a.saturating_sub(b));
    }
}

impl<const MIN: u64, const MAX: u64> std::ops::SubAssign<u64> for BoundU64<MIN, MAX> {
    fn sub_assign(&mut self, other: u64) {
        let a = self.inner_value;
        let b = other;
        *self = Self::new(a.saturating_sub(b));
    }
}

impl<const MIN: u64, const MAX: u64> std::ops::SubAssign<BoundU64<MIN, MAX>> for u64 {
    fn sub_assign(&mut self, other: BoundU64<MIN, MAX>) {
        let a = *self;
        let b = other.inner_value;
        *self = a.saturating_sub(b);
    }
}

impl<const MIN: u64, const MAX: u64> std::ops::Mul for BoundU64<MIN, MAX> {
    type Output = Self;

    fn mul(self, other: Self) -> (r: Self) {
        let a = self.inner_value;
        let b = other.inner_value;
        Self::new(saturating_mul_u64(a, b))
    }
}

impl<const MIN: u64, const MAX: u64> vstd::std_specs::ops::MulSpecImpl for BoundU64<MIN, MAX> {
    open spec fn obeys_mul_spec() -> bool {
        true
    }

    open spec fn mul_req(self, other: Self) -> bool {
        true
    }

    open spec fn mul_spec(self, other: Self) -> Self {
        Self::with_value(clamp_u64(saturate_u64(self.value() * other.value()) as int, MIN, MAX))
    }
}

impl<const MIN: u64, const MAX: u64> std::ops::Mul<u64> for BoundU64<MIN, MAX> {
    type Output = u64;

    fn mul(self, other: u64) -> (r: u64) {
        let a = self.inner_value;
        let b = other;
        saturating_mul_u64(a, b)
    }
}

impl<const MIN: u64, const MAX: u64> vstd::std_specs::ops::MulSpecImpl<u64> for BoundU64<MIN, MAX> {
    open spec fn obeys_mul_spec() -> bool {
        true
    }

    open spec fn mul_req(self, other: u64) -> bool {
        true
    }

    open spec fn mul_spec(self, other: u64) -> u64 {
        saturate_u64(self.value() * other)
    }
}

impl<const MIN: u64, const MAX: u64> std::ops::Mul<BoundU64<MIN, MAX>> for u64 {
    type Output = u64;

    fn mul(self, other: BoundU64<MIN, MAX>) -> (r: u64) {
        let a = self;
        let b = other.inner_value;
        saturating_mul_u64(a, b)
    }
}

impl<const MIN: u64, const MAX: u64> vstd::std_specs::ops::MulSpecImpl<BoundU64<MIN, MAX>> for u64 {
    open spec fn obeys_mul_spec() -> bool {
        true
    }

    open spec fn mul_req(self, other: BoundU64<MIN, MAX>) -> bool {
        true
    }

    open spec fn mul_spec(self, other: BoundU64<MIN, MAX>) -> u64 {
        saturate_u64(self * other.value())
    }
}

impl<const MIN: u64, const MAX: u64> std::ops::MulAssign for BoundU64<MIN, MAX> {
    fn mul_assign(&mut self, other: Self) {
        let a = self.inner_value;
        let b = other.inner_value;
        *self = Self::new(saturating_mul_u64(a, b));
    }
}

impl<const MIN: u64, const MAX: u64> std::ops::MulAssign<u64> for BoundU64<MIN, MAX> {
    fn mul_assign(&mut self, other: u64) {
        let a = self.inner_value;
        let b = other;
        *self = Self::new(saturating_mul_u64(a, b));
    }
}

impl<const MIN: u64, const MAX: u64> std::ops::MulAssign<BoundU64<MIN, MAX>> for u64 {
    fn mul_assign(&mut self, other: BoundU64<MIN, MAX>) {
        let a = *self;
        let b = other.inner_value;
        *self = saturating_mul_u64(a, b);
    }
}

impl<const MIN: u64, const MAX: u64> std::ops::Div for BoundU64<MIN, MAX> {
    type Output = Self;

    fn div(self, other: Self) -> (r: Self) {
        let a = self.inner_value;
        let b = other.inner_value;
        Self::new(a / b)
    }
}

impl<const MIN: u64, const MAX: u64> vstd::std_specs::ops::DivSpecImpl for BoundU64<MIN, MAX> {
    open spec fn obeys_div_spec() -> bool {
        true
    }

    open spec fn div_req(self, other: Self) -> bool {
        other.value() != 0
    }

    open spec fn div_spec(self, other: Self) -> Self {
        Self::with_value(clamp_u64((self.value() / other.value()) as u64 as int, MIN, MAX))
    }
}

impl<const MIN: u64, const MAX: u64> std::ops::Div<u64> for BoundU64<MIN, MAX> {
    type Output = u64;

    fn div(self, other: u64) -> (r: u64) {
        let a = self.inner_value;
        let b = other;
        a / b
    }
}

impl<const MIN: u64, const MAX: u64> vstd::std_specs::ops::DivSpecImpl<u64> for BoundU64<MIN, MAX> {
    open spec fn obeys_div_spec() -> bool {
        true
    }

    open spec fn div_req(self, other: u64) -> bool {
        other != 0
    }

    open spec fn div_spec(self, other: u64) -> u64 {
        (self.value() / other) as u64
    }
}

impl<const MIN: u64, const MAX: u64> std::ops::Div<BoundU64<MIN, MAX>> for u64 {
    type Output = u64;

    fn div(self, other: BoundU64<MIN, MAX>) -> (r: u64) {
        let a = self;
        let b = other.inner_value;
        a / b
    }
}

impl<const MIN: u64, const MAX: u64> vstd::std_specs::ops::DivSpecImpl<BoundU64<MIN, MAX>> for u64 {
    open spec fn obeys_div_spec() -> bool {
        true
    }

    open spec fn div_req(self, other: BoundU64<MIN, MAX>) -> bool {
        other.value() != 0
    }

    open spec fn div_spec(self, other: BoundU64<MIN, MAX>) -> u64 {
        (self / other.value()) as u64
    }
}

impl<const MIN: u64, const MAX: u64> std::ops::Rem for BoundU64<MIN, MAX> {
    type Output = Self;

    fn rem(self, other: Self) -> (r: Self) {
        let a = self.inner_value;
        let b = other.inner_value;
        Self::new(if b == 0 { 0 } else { a % b })
    }
}

impl<const MIN: u64, const MAX: u64> vstd::std_specs::ops::RemSpecImpl for BoundU64<MIN, MAX> {
    open spec fn obeys_rem_spec() -> bool {
        true
    }

    open spec fn rem_req(self, other: Self) -> bool {
        true
    }

    open spec fn rem_spec(self, other: Self) -> Self {
        Self::with_value(clamp_u64((if other.value() == 0 { 0 } else { self.value() % other.value() }) as u64 as int, MIN, MAX))
    }
}

impl<const MIN: u64, const MAX: u64> std::ops::Rem<u64> for BoundU64<MIN, MAX> {
    type Output = u64;

    fn rem(self, other: u64) -> (r: u64) {
        let a = self.inner_value;
        let b = other;
        if b == 0 { 0 } else { a % b }
    }
}

impl<const MIN: u64, const MAX: u64> vstd::std_specs::ops::RemSpecImpl<u64> for BoundU64<MIN, MAX> {
    open spec fn obeys_rem_spec() -> bool {
        true
    }

    open spec fn rem_req(self, other: u64) -> bool {
        true
    }

    open spec fn rem_spec(self, other: u64) -> u64 {
        (if other == 0 { 0 } else { self.value() % other }) as u64
    }
}

impl<const MIN: u64, const MAX: u64> std::ops::Rem<BoundU64<MIN, MAX>> for u64 {
    type Output = u64;

    fn rem(self, other: BoundU64<MIN, MAX>) -> (r: u64) {
        let a = self;
        let b = other.inner_value;
        if b == 0 { 0 } else { a % b }
    }
}

impl<const MIN: u64, const MAX: u64> vstd::std_specs::ops::RemSpecImpl<BoundU64<MIN, MAX>> for u64 {
    open spec fn obeys_rem_spec() -> bool {
        true
    }

    open spec fn rem_req(self, other: BoundU64<MIN, MAX>) -> bool {
        true
    }

    open spec fn rem_spec(self, other: BoundU64<MIN, MAX>) -> u64 {
        (if other.value() == 0 { 0 } else { self % other.value() }) as u64
    }
}

impl<const MIN: u64, const MAX: u64> std::ops::RemAssign for BoundU64<MIN, MAX> {
    fn rem_assign(&mut self, other: Self) {
        let a = self.inner_value;
        let b = other.inner_value;
        *self = Self::new(if b == 0 { MIN } else { a % b });
    }
}

impl<const MIN: u64, const MAX: u64> std::ops::RemAssign<u64> for BoundU64<MIN, MAX> {
    fn rem_assign(&mut self, other: u64) {
        let a = self.inner_value;
        let b = other;
        *self = Self::new(if b == 0 { MIN } else { a % b });
    }
}

impl<const MIN: u64, const MAX: u64> std::ops::RemAssign<BoundU64<MIN, MAX>> for u64 {
    fn rem_assign(&mut self, other: BoundU64<MIN, MAX>) {
        let a = *self;
        let b = other.inner_value;
        *self = if b == 0 { 0 } else { a % b };
    }
}

impl<const MIN: u64, const MAX: u64> From<u64> for BoundU64<MIN, MAX> {
    fn from(value: u64) -> (r: Self) {
        Self::new(value)
    }
}

impl<const MIN: u64, const MAX: u64> vstd::std_specs::convert::FromSpecImpl<u64> for BoundU64<MIN, MAX> {
    open spec fn obeys_from_spec() -> bool {
        true
    }

    open spec fn from_spec(value: u64) -> Self {
        Self::with_value(convert_u64(value as int, MIN, MAX))
    }
}

impl<const MIN: u64, const MAX: u64> From<BoundU64<MIN, MAX>> for u64 {
    fn from(value: BoundU64<MIN, MAX>) -> (r: u64) {
        value.inner_value
    }
}

impl<const MIN: u64, const MAX: u64> vstd::std_specs::convert::FromSpecImpl<BoundU64<MIN, MAX>> for u64 {
    open spec fn obeys_from_spec() -> bool {
        true
    }

    open spec fn from_spec(value: BoundU64<MIN, MAX>) -> u64 {
        value.value()
    }
}

} // verus!
