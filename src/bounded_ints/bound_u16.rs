use vstd::prelude::*;
use super::{clamp, compare};

verus! {

/// A `u16` kept between `MIN` and `MAX`: every value that enters is clamped
/// into that range.
#[allow(non_camel_case_types)]
#[derive(Clone, Copy, Debug, Hash, Ord)]
pub struct B_u16<const MIN: u16, const MAX: u16> {
    inner_value: u16,
}

/// `value` clamped into `[min, max]`: below `min` gives `min`, otherwise
/// above `max` gives `max`.
pub open spec fn clamp_u16(value: int, min: u16, max: u16) -> u16 {
    if value < min {
        min
    } else if value > max {
        max
    } else {
        value as u16
    }
}

/// An integer pinned to the range of `u16`.
pub open spec fn saturate_u16(x: int) -> u16 {
    clamp(x, 0, u16::MAX as int) as u16
}

/// What a conversion into a bounded `u16` keeps of `v`: below zero the
/// lower bound, above `u16::MAX` the upper bound, otherwise `v` clamped.
pub open spec fn convert_u16(v: int, min: u16, max: u16) -> u16 {
    if v < 0 {
        clamp_u16(min as int, min, max)
    } else if v > u16::MAX {
        clamp_u16(max as int, min, max)
    } else {
        clamp_u16(v, min, max)
    }
}

/// `a * b`, pinned to the range of `u16`.
fn saturating_mul_u16(a: u16, b: u16) -> (r: u16)
    ensures
        r == saturate_u16(a * b),
{
    proof {
        assert((a as int) * (b as int) <= (u16::MAX as int) * (u16::MAX as int)) by (nonlinear_arith)
            requires
                0 <= a <= u16::MAX,
                0 <= b <= u16::MAX,
        ;
        assert((u16::MAX as int) * (u16::MAX as int) <= (u64::MAX as int) * (u64::MAX as int)) by (nonlinear_arith);
    }
    let p: u128 = (a as u128) * (b as u128);
    if p > u16::MAX as u128 {
        u16::MAX
    } else {
        p as u16
    }
}

impl<const MIN: u16, const MAX: u16> B_u16<MIN, MAX> {
    /// The value held.
    pub closed spec fn value(&self) -> u16 {
        self.inner_value
    }

    /// The bounded value that holds `v` as it is.
    pub closed spec fn with_value(v: u16) -> Self {
        Self { inner_value: v }
    }

    /// A bounded value built with `with_value` holds what it was given.
    pub broadcast proof fn lemma_with_value(v: u16)
        ensures
            #[trigger] Self::with_value(v).value() == v,
    {
    }

    /// Holds `value` clamped into the range.
    pub fn new(value: u16) -> (r: Self)
        ensures
            r.value() == clamp_u16(value as int, MIN, MAX),
    {
        if value < MIN {
            Self { inner_value: MIN }
        } else if value > MAX {
            Self { inner_value: MAX }
        } else {
            Self { inner_value: value }
        }
    }

    pub fn get(&self) -> (r: u16)
        ensures
            r == self.value(),
    {
        self.inner_value
    }

    /// Replaces the value by `value` clamped into the range, which must not
    /// be empty.
    pub fn set(&mut self, value: u16)
        requires
            MIN <= MAX,
        ensures
            final(self).value() == clamp_u16(value as int, MIN, MAX),
    {
        *self = Self::new(value);
    }
}

impl<const MIN: u16, const MAX: u16> Default for B_u16<MIN, MAX> {
    fn default() -> (r: Self)
        ensures
            r.value() == clamp_u16(MIN as int, MIN, MAX),
    {
        Self::new(MIN)
    }
}

impl<const MIN: u16, const MAX: u16> std::ops::Deref for B_u16<MIN, MAX> {
    type Target = u16;

    fn deref(&self) -> (r: &u16)
        ensures
            *r == self.value(),
    {
        &self.inner_value
    }
}

impl<const MIN: u16, const MAX: u16> PartialEq for B_u16<MIN, MAX> {
    fn eq(&self, other: &Self) -> (r: bool) {
        self.inner_value == other.inner_value
    }
}

impl<const MIN: u16, const MAX: u16> vstd::std_specs::cmp::PartialEqSpecImpl for B_u16<MIN, MAX> {
    open spec fn obeys_eq_spec() -> bool {
        true
    }

    open spec fn eq_spec(&self, other: &Self) -> bool {
        self.value() == other.value()
    }
}

impl<const MIN: u16, const MAX: u16> Eq for B_u16<MIN, MAX> {
}

impl<const MIN: u16, const MAX: u16> PartialEq<u16> for B_u16<MIN, MAX> {
    fn eq(&self, other: &u16) -> (r: bool) {
        self.inner_value == *other
    }
}

impl<const MIN: u16, const MAX: u16> vstd::std_specs::cmp::PartialEqSpecImpl<u16> for B_u16<MIN, MAX> {
    open spec fn obeys_eq_spec() -> bool {
        true
    }

    open spec fn eq_spec(&self, other: &u16) -> bool {
        self.value() == *other
    }
}

impl<const MIN: u16, const MAX: u16> PartialEq<B_u16<MIN, MAX>> for u16 {
    fn eq(&self, other: &B_u16<MIN, MAX>) -> (r: bool) {
        *self == other.inner_value
    }
}

impl<const MIN: u16, const MAX: u16> vstd::std_specs::cmp::PartialEqSpecImpl<B_u16<MIN, MAX>> for u16 {
    open spec fn obeys_eq_spec() -> bool {
        true
    }

    open spec fn eq_spec(&self, other: &B_u16<MIN, MAX>) -> bool {
        *self == other.value()
    }
}

impl<const MIN: u16, const MAX: u16> PartialOrd for B_u16<MIN, MAX> {
    fn partial_cmp(&self, other: &Self) -> (r: Option<std::cmp::Ordering>) {
        Some(order_u16(self.inner_value, other.inner_value))
    }
}

impl<const MIN: u16, const MAX: u16> vstd::std_specs::cmp::PartialOrdSpecImpl for B_u16<MIN, MAX> {
    open spec fn obeys_partial_cmp_spec() -> bool {
        true
    }

    open spec fn partial_cmp_spec(&self, other: &Self) -> Option<std::cmp::Ordering> {
        Some(compare(self.value() as int, other.value() as int))
    }
}

impl<const MIN: u16, const MAX: u16> PartialOrd<u16> for B_u16<MIN, MAX> {
    fn partial_cmp(&self, other: &u16) -> (r: Option<std::cmp::Ordering>) {
        Some(order_u16(self.inner_value, *other))
    }
}

impl<const MIN: u16, const MAX: u16> vstd::std_specs::cmp::PartialOrdSpecImpl<u16> for B_u16<MIN, MAX> {
    open spec fn obeys_partial_cmp_spec() -> bool {
        true
    }

    open spec fn partial_cmp_spec(&self, other: &u16) -> Option<std::cmp::Ordering> {
        Some(compare(self.value() as int, *other as int))
    }
}

impl<const MIN: u16, const MAX: u16> PartialOrd<B_u16<MIN, MAX>> for u16 {
    fn partial_cmp(&self, other: &B_u16<MIN, MAX>) -> (r: Option<std::cmp::Ordering>) {
        Some(order_u16(*self, other.inner_value))
    }
}

impl<const MIN: u16, const MAX: u16> vstd::std_specs::cmp::PartialOrdSpecImpl<B_u16<MIN, MAX>> for u16 {
    open spec fn obeys_partial_cmp_spec() -> bool {
        true
    }

    open spec fn partial_cmp_spec(&self, other: &B_u16<MIN, MAX>) -> Option<std::cmp::Ordering> {
        Some(compare(*self as int, other.value() as int))
    }
}

/// The order of two `u16` values.
fn order_u16(a: u16, b: u16) -> (r: std::cmp::Ordering)
    ensures
        r == compare(a as int, b as int),
{
    if a < b {
        std::cmp::Ordering::Less
    } else if a == b {
        std::cmp::Ordering::Equal
    } else {
        std::cmp::Ordering::Greater
    }
}

impl<const MIN: u16, const MAX: u16> std::ops::Add for B_u16<MIN, MAX> {
    type Output = Self;

    fn add(self, other: Self) -> (r: Self) {
        let a = self.inner_value;
        let b = other.inner_value;
        Self::new(a.saturating_add(b))
    }
}

impl<const MIN: u16, const MAX: u16> vstd::std_specs::ops::AddSpecImpl for B_u16<MIN, MAX> {
    open spec fn obeys_add_spec() -> bool {
        true
    }

    open spec fn add_req(self, other: Self) -> bool {
        true
    }

    open spec fn add_spec(self, other: Self) -> Self {
        Self::with_value(clamp_u16(saturate_u16(self.value() + other.value()) as int, MIN, MAX))
    }
}

impl<const MIN: u16, const MAX: u16> std::ops::Add<u16> for B_u16<MIN, MAX> {
    type Output = u16;

    fn add(self, other: u16) -> (r: u16) {
        let a = self.inner_value;
        let b = other;
        a.saturating_add(b)
    }
}

impl<const MIN: u16, const MAX: u16> vstd::std_specs::ops::AddSpecImpl<u16> for B_u16<MIN, MAX> {
    open spec fn obeys_add_spec() -> bool {
        true
    }

    open spec fn add_req(self, other: u16) -> bool {
        true
    }

    open spec fn add_spec(self, other: u16) -> u16 {
        saturate_u16(self.value() + other)
    }
}

impl<const MIN: u16, const MAX: u16> std::ops::Add<B_u16<MIN, MAX>> for u16 {
    type Output = u16;

    fn add(self, other: B_u16<MIN, MAX>) -> (r: u16) {
        let a = self;
        let b = other.inner_value;
        a.saturating_add(b)
    }
}

impl<const MIN: u16, const MAX: u16> vstd::std_specs::ops::AddSpecImpl<B_u16<MIN, MAX>> for u16 {
    open spec fn obeys_add_spec() -> bool {
        true
    }

    open spec fn add_req(self, other: B_u16<MIN, MAX>) -> bool {
        true
    }

    open spec fn add_spec(self, other: B_u16<MIN, MAX>) -> u16 {
        saturate_u16(self + other.value())
    }
}

impl<const MIN: u16, const MAX: u16> std::ops::AddAssign for B_u16<MIN, MAX> {
    fn add_assign(&mut self, other: Self) {
        let a = self.inner_value;
        let b = other.inner_value;
        *self = Self::new(a.saturating_add(b));
    }
}

impl<const MIN: u16, const MAX: u16> std::ops::AddAssign<u16> for B_u16<MIN, MAX> {
    fn add_assign(&mut self, other: u16) {
        let a = self.inner_value;
        let b = other;
        *self = Self::new(a.saturating_add(b));
    }
}

impl<const MIN: u16, const MAX: u16> std::ops::AddAssign<B_u16<MIN, MAX>> for u16 {
    fn add_assign(&mut self, other: B_u16<MIN, MAX>) {
        let a = *self;
        let b = other.inner_value;
        *self = a.saturating_add(b);
    }
}

impl<const MIN: u16, const MAX: u16> std::ops::Sub for B_u16<MIN, MAX> {
    type Output = Self;

    fn sub(self, other: Self) -> (r: Self) {
        let a = self.inner_value;
        let b = other.inner_value;
        Self::new(a.saturating_sub(b))
    }
}

impl<const MIN: u16, const MAX: u16> vstd::std_specs::ops::SubSpecImpl for B_u16<MIN, MAX> {
    open spec fn obeys_sub_spec() -> bool {
        true
    }

    open spec fn sub_req(self, other: Self) -> bool {
        true
    }

    open spec fn sub_spec(self, other: Self) -> Self {
        Self::with_value(clamp_u16(saturate_u16(self.value() - other.value()) as int, MIN, MAX))
    }
}

impl<const MIN: u16, const MAX: u16> std::ops::Sub<u16> for B_u16<MIN, MAX> {
    type Output = u16;

    fn sub(self, other: u16) -> (r: u16) {
        let a = self.inner_value;
        let b = other;
        a.saturating_sub(b)
    }
}

impl<const MIN: u16, const MAX: u16> vstd::std_specs::ops::SubSpecImpl<u16> for B_u16<MIN, MAX> {
    open spec fn obeys_sub_spec() -> bool {
        true
    }

    open spec fn sub_req(self, other: u16) -> bool {
        true
    }

    open spec fn sub_spec(self, other: u16) -> u16 {
        saturate_u16(self.value() - other)
    }
}

impl<const MIN: u16, const MAX: u16> std::ops::Sub<B_u16<MIN, MAX>> for u16 {
    type Output = u16;

    fn sub(self, other: B_u16<MIN, MAX>) -> (r: u16) {
        let a = self;
        let b = other.inner_value;
        a.saturating_sub(b)
    }
}

impl<const MIN: u16, const MAX: u16> vstd::std_specs::ops::SubSpecImpl<B_u16<MIN, MAX>> for u16 {
    open spec fn obeys_sub_spec() -> bool {
        true
    }

    open spec fn sub_req(self, other: B_u16<MIN, MAX>) -> bool {
        true
    }

    open spec fn sub_spec(self, other: B_u16<MIN, MAX>) -> u16 {
        saturate_u16(self - other.value())
    }
}

impl<const MIN: u16, const MAX: u16> std::ops::SubAssign for B_u16<MIN, MAX> {
    fn sub_assign(&mut self, other: Self) {
        let a = self.inner_value;
        let b = other.inner_value;
        *self = Self::new(a.saturating_sub(b));
    }
}

impl<const MIN: u16, const MAX: u16> std::ops::SubAssign<u16> for B_u16<MIN, MAX> {
    fn sub_assign(&mut self, other: u16) {
        let a = self.inner_value;
        let b = other;
        *self = Self::new(a.saturating_sub(b));
    }
}

impl<const MIN: u16, const MAX: u16> std::ops::SubAssign<B_u16<MIN, MAX>> for u16 {
    fn sub_assign(&mut self, other: B_u16<MIN, MAX>) {
        let a = *self;
        let b = other.inner_value;
        *self = a.saturating_sub(b);
    }
}

impl<const MIN: u16, const MAX: u16> std::ops::Mul for B_u16<MIN, MAX> {
    type Output = Self;

    fn mul(self, other: Self) -> (r: Self) {
        let a = self.inner_value;
        let b = other.inner_value;
        Self::new(saturating_mul_u16(a, b))
    }
}

impl<const MIN: u16, const MAX: u16> vstd::std_specs::ops::MulSpecImpl for B_u16<MIN, MAX> {
    open spec fn obeys_mul_spec() -> bool {
        true
    }

    open spec fn mul_req(self, other: Self) -> bool {
        true
    }

    open spec fn mul_spec(self, other: Self) -> Self {
        Self::with_value(clamp_u16(saturate_u16(self.value() * other.value()) as int, MIN, MAX))
    }
}

impl<const MIN: u16, const MAX: u16> std::ops::Mul<u16> for B_u16<MIN, MAX> {
    type Output = u16;

    fn mul(self, other: u16) -> (r: u16) {
        let a = self.inner_value;
        let b = other;
        saturating_mul_u16(a, b)
    }
}

impl<const MIN: u16, const MAX: u16> vstd::std_specs::ops::MulSpecImpl<u16> for B_u16<MIN, MAX> {
    open spec fn obeys_mul_spec() -> bool {
        true
    }

    open spec fn mul_req(self, other: u16) -> bool {
        true
    }

    open spec fn mul_spec(self, other: u16) -> u16 {
        saturate_u16(self.value() * other)
    }
}

impl<const MIN: u16, const MAX: u16> std::ops::Mul<B_u16<MIN, MAX>> for u16 {
    type Output = u16;

    fn mul(self, other: B_u16<MIN, MAX>) -> (r: u16) {
        let a = self;
        let b = other.inner_value;
        saturating_mul_u16(a, b)
    }
}

impl<const MIN: u16, const MAX: u16> vstd::std_specs::ops::MulSpecImpl<B_u16<MIN, MAX>> for u16 {
    open spec fn obeys_mul_spec() -> bool {
        true
    }

    open spec fn mul_req(self, other: B_u16<MIN, MAX>) -> bool {
        true
    }

    open spec fn mul_spec(self, other: B_u16<MIN, MAX>) -> u16 {
        saturate_u16(self * other.value())
    }
}

impl<const MIN: u16, const MAX: u16> std::ops::MulAssign for B_u16<MIN, MAX> {
    fn mul_assign(&mut self, other: Self) {
        let a = self.inner_value;
        let b = other.inner_value;
        *self = Self::new(saturating_mul_u16(a, b));
    }
}

impl<const MIN: u16, const MAX: u16> std::ops::MulAssign<u16> for B_u16<MIN, MAX> {
    fn mul_assign(&mut self, other: u16) {
        let a = self.inner_value;
        let b = other;
        *self = Self::new(saturating_mul_u16(a, b));
    }
}

impl<const MIN: u16, const MAX: u16> std::ops::MulAssign<B_u16<MIN, MAX>> for u16 {
    fn mul_assign(&mut self, other: B_u16<MIN, MAX>) {
        let a = *self;
        let b = other.inner_value;
        *self = saturating_mul_u16(a, b);
    }
}

impl<const MIN: u16, const MAX: u16> std::ops::Div for B_u16<MIN, MAX> {
    type Output = Self;

    fn div(self, other: Self) -> (r: Self) {
        let a = self.inner_value;
        let b = other.inner_value;
        Self::new(a / b)
    }
}

impl<const MIN: u16, const MAX: u16> vstd::std_specs::ops::DivSpecImpl for B_u16<MIN, MAX> {
    open spec fn obeys_div_spec() -> bool {
        true
    }

    open spec fn div_req(self, other: Self) -> bool {
        other.value() != 0
    }

    open spec fn div_spec(self, other: Self) -> Self {
        Self::with_value(clamp_u16((self.value() / other.value()) as u16 as int, MIN, MAX))
    }
}

impl<const MIN: u16, const MAX: u16> std::ops::Div<u16> for B_u16<MIN, MAX> {
    type Output = u16;

    fn div(self, other: u16) -> (r: u16) {
        let a = self.inner_value;
        let b = other;
        a / b
    }
}

impl<const MIN: u16, const MAX: u16> vstd::std_specs::ops::DivSpecImpl<u16> for B_u16<MIN, MAX> {
    open spec fn obeys_div_spec() -> bool {
        true
    }

    open spec fn div_req(self, other: u16) -> bool {
        other != 0
    }

    open spec fn div_spec(self, other: u16) -> u16 {
        (self.value() / other) as u16
    }
}

impl<const MIN: u16, const MAX: u16> std::ops::Div<B_u16<MIN, MAX>> for u16 {
    type Output = u16;

    fn div(self, other: B_u16<MIN, MAX>) -> (r: u16) {
        let a = self;
        let b = other.inner_value;
        a / b
    }
}

impl<const MIN: u16, const MAX: u16> vstd::std_specs::ops::DivSpecImpl<B_u16<MIN, MAX>> for u16 {
    open spec fn obeys_div_spec() -> bool {
        true
    }

    open spec fn div_req(self, other: B_u16<MIN, MAX>) -> bool {
        other.value() != 0
    }

    open spec fn div_spec(self, other: B_u16<MIN, MAX>) -> u16 {
        (self / other.value()) as u16
    }
}

impl<const MIN: u16, const MAX: u16> std::ops::Rem for B_u16<MIN, MAX> {
    type Output = Self;

    fn rem(self, other: Self) -> (r: Self) {
        let a = self.inner_value;
        let b = other.inner_value;
        Self::new(if b == 0 { 0 } else { a % b })
    }
}

impl<const MIN: u16, const MAX: u16> vstd::std_specs::ops::RemSpecImpl for B_u16<MIN, MAX> {
    open spec fn obeys_rem_spec() -> bool {
        true
    }

    open spec fn rem_req(self, other: Self) -> bool {
        true
    }

    open spec fn rem_spec(self, other: Self) -> Self {
        Self::with_value(clamp_u16((if other.value() == 0 { 0 } else { self.value() % other.value() }) as u16 as int, MIN, MAX))
    }
}

impl<const MIN: u16, const MAX: u16> std::ops::Rem<u16> for B_u16<MIN, MAX> {
    type Output = u16;

    fn rem(self, other: u16) -> (r: u16) {
        let a = self.inner_value;
        let b = other;
        if b == 0 { 0 } else { a % b }
    }
}

impl<const MIN: u16, const MAX: u16> vstd::std_specs::ops::RemSpecImpl<u16> for B_u16<MIN, MAX> {
    open spec fn obeys_rem_spec() -> bool {
        true
    }

    open spec fn rem_req(self, other: u16) -> bool {
        true
    }

    open spec fn rem_spec(self, other: u16) -> u16 {
        (if other == 0 { 0 } else { self.value() % other }) as u16
    }
}

impl<const MIN: u16, const MAX: u16> std::ops::Rem<B_u16<MIN, MAX>> for u16 {
    type Output = u16;

    fn rem(self, other: B_u16<MIN, MAX>) -> (r: u16) {
        let a = self;
        let b = other.inner_value;
        if b == 0 { 0 } else { a % b }
    }
}

impl<const MIN: u16, const MAX: u16> vstd::std_specs::ops::RemSpecImpl<B_u16<MIN, MAX>> for u16 {
    open spec fn obeys_rem_spec() -> bool {
        true
    }

    open spec fn rem_req(self, other: B_u16<MIN, MAX>) -> bool {
        true
    }

    open spec fn rem_spec(self, other: B_u16<MIN, MAX>) -> u16 {
        (if other.value() == 0 { 0 } else { self % other.value() }) as u16
    }
}

impl<const MIN: u16, const MAX: u16> std::ops::RemAssign for B_u16<MIN, MAX> {
    fn rem_assign(&mut self, other: Self) {
        let a = self.inner_value;
        let b = other.inner_value;
        *self = Self::new(if b == 0 { MIN } else { a % b });
    }
}

impl<const MIN: u16, const MAX: u16> std::ops::RemAssign<u16> for B_u16<MIN, MAX> {
    fn rem_assign(&mut self, other: u16) {
        let a = self.inner_value;
        let b = other;
        *self = Self::new(if b == 0 { MIN } else { a % b });
    }
}

impl<const MIN: u16, const MAX: u16> std::ops::RemAssign<B_u16<MIN, MAX>> for u16 {
    fn rem_assign(&mut self, other: B_u16<MIN, MAX>) {
        let a = *self;
        let b = other.inner_value;
        *self = if b == 0 { 0 } else { a % b };
    }
}

impl<const MIN: u16, const MAX: u16> From<u8> for B_u16<MIN, MAX> {
    fn from(value: u8) -> (r: Self) {
        Self::new(value as u16)
    }
}

impl<const MIN: u16, const MAX: u16> vstd::std_specs::convert::FromSpecImpl<u8> for B_u16<MIN, MAX> {
    open spec fn obeys_from_spec() -> bool {
        true
    }

    open spec fn from_spec(value: u8) -> Self {
        Self::with_value(convert_u16(value as int, MIN, MAX))
    }
}

impl<const MIN: u16, const MAX: u16> From<u16> for B_u16<MIN, MAX> {
    fn from(value: u16) -> (r: Self) {
        Self::new(value)
    }
}

impl<const MIN: u16, const MAX: u16> vstd::std_specs::convert::FromSpecImpl<u16> for B_u16<MIN, MAX> {
    open spec fn obeys_from_spec() -> bool {
        true
    }

    open spec fn from_spec(value: u16) -> Self {
        Self::with_value(convert_u16(value as int, MIN, MAX))
    }
}

impl<const MIN: u16, const MAX: u16> From<u32> for B_u16<MIN, MAX> {
    fn from(value: u32) -> (r: Self) {
        if value as u128 > u16::MAX as u128 {
            Self::new(MAX)
        } else {
            Self::new(value as u16)
        }
    }
}

impl<const MIN: u16, const MAX: u16> vstd::std_specs::convert::FromSpecImpl<u32> for B_u16<MIN, MAX> {
    open spec fn obeys_from_spec() -> bool {
        true
    }

    open spec fn from_spec(value: u32) -> Self {
        Self::with_value(convert_u16(value as int, MIN, MAX))
    }
}

impl<const MIN: u16, const MAX: u16> From<u64> for B_u16<MIN, MAX> {
    fn from(value: u64) -> (r: Self) {
        if value as u128 > u16::MAX as u128 {
            Self::new(MAX)
        } else {
            Self::new(value as u16)
        }
    }
}

impl<const MIN: u16, const MAX: u16> vstd::std_specs::convert::FromSpecImpl<u64> for B_u16<MIN, MAX> {
    open spec fn obeys_from_spec() -> bool {
        true
    }

    open spec fn from_spec(value: u64) -> Self {
        Self::with_value(convert_u16(value as int, MIN, MAX))
    }
}

impl<const MIN: u16, const MAX: u16> From<u128> for B_u16<MIN, MAX> {
    fn from(value: u128) -> (r: Self) {
        if value as u128 > u16::MAX as u128 {
            Self::new(MAX)
        } else {
            Self::new(value as u16)
        }
    }
}

impl<const MIN: u16, const MAX: u16> vstd::std_specs::convert::FromSpecImpl<u128> for B_u16<MIN, MAX> {
    open spec fn obeys_from_spec() -> bool {
        true
    }

    open spec fn from_spec(value: u128) -> Self {
        Self::with_value(convert_u16(value as int, MIN, MAX))
    }
}

impl<const MIN: u16, const MAX: u16> From<i8> for B_u16<MIN, MAX> {
    fn from(value: i8) -> (r: Self) {
        if value < 0 {
            Self::new(MIN)
        } else if value as i128 > u16::MAX as i128 {
            Self::new(MAX)
        } else {
            Self::new(value as u16)
        }
    }
}

impl<const MIN: u16, const MAX: u16> vstd::std_specs::convert::FromSpecImpl<i8> for B_u16<MIN, MAX> {
    open spec fn obeys_from_spec() -> bool {
        true
    }

    open spec fn from_spec(value: i8) -> Self {
        Self::with_value(convert_u16(value as int, MIN, MAX))
    }
}

impl<const MIN: u16, const MAX: u16> From<i16> for B_u16<MIN, MAX> {
    fn from(value: i16) -> (r: Self) {
        if value < 0 {
            Self::new(MIN)
        } else if value as i128 > u16::MAX as i128 {
            Self::new(MAX)
        } else {
            Self::new(value as u16)
        }
    }
}

impl<const MIN: u16, const MAX: u16> vstd::std_specs::convert::FromSpecImpl<i16> for B_u16<MIN, MAX> {
    open spec fn obeys_from_spec() -> bool {
        true
    }

    open spec fn from_spec(value: i16) -> Self {
        Self::with_value(convert_u16(value as int, MIN, MAX))
    }
}

impl<const MIN: u16, const MAX: u16> From<i32> for B_u16<MIN, MAX> {
    fn from(value: i32) -> (r: Self) {
        if value < 0 {
            Self::new(MIN)
        } else if value as i128 > u16::MAX as i128 {
            Self::new(MAX)
        } else {
            Self::new(value as u16)
        }
    }
}

impl<const MIN: u16, const MAX: u16> vstd::std_specs::convert::FromSpecImpl<i32> for B_u16<MIN, MAX> {
    open spec fn obeys_from_spec() -> bool {
        true
    }

    open spec fn from_spec(value: i32) -> Self {
        Self::with_value(convert_u16(value as int, MIN, MAX))
    }
}

impl<const MIN: u16, const MAX: u16> From<i64> for B_u16<MIN, MAX> {
    fn from(value: i64) -> (r: Self) {
        if value < 0 {
            Self::new(MIN)
        } else if value as i128 > u16::MAX as i128 {
            Self::new(MAX)
        } else {
            Self::new(value as u16)
        }
    }
}

impl<const MIN: u16, const MAX: u16> vstd::std_specs::convert::FromSpecImpl<i64> for B_u16<MIN, MAX> {
    open spec fn obeys_from_spec() -> bool {
        true
    }

    open spec fn from_spec(value: i64) -> Self {
        Self::with_value(convert_u16(value as int, MIN, MAX))
    }
}

impl<const MIN: u16, const MAX: u16> From<i128> for B_u16<MIN, MAX> {
    fn from(value: i128) -> (r: Self) {
        if value < 0 {
            Self::new(MIN)
        } else if value as i128 > u16::MAX as i128 {
            Self::new(MAX)
        } else {
            Self::new(value as u16)
        }
    }
}

impl<const MIN: u16, const MAX: u16> vstd::std_specs::convert::FromSpecImpl<i128> for B_u16<MIN, MAX> {
    open spec fn obeys_from_spec() -> bool {
        true
    }

    open spec fn from_spec(value: i128) -> Self {
        Self::with_value(convert_u16(value as int, MIN, MAX))
    }
}

} // verus!
