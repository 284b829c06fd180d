use vstd::prelude::*;
use super::{clamp, compare};

verus! {

/// A `usize` kept between `MIN` and `MAX`: every value that enters is clamped
/// into that range.
#[allow(non_camel_case_types)]
#[derive(Clone, Copy, Debug, Hash, Ord)]
pub struct BoundUSize<const MIN: usize, const MAX: usize> {
    inner_value: usize,
}

/// `value` clamped into `[min, max]`: below `min` gives `min`, otherwise
/// above `max` gives `max`.
pub open spec fn clamp_usize(value: int, min: usize, max: usize) -> usize {
    if value < min {
        min
    } else if value > max {
        max
    } else {
        value as usize
    }
}

/// An integer pinned to the range of `usize`.
pub open spec fn saturate_usize(x: int) -> usize {
    clamp(x, 0, usize::MAX as int) as usize
}

/// What a conversion into a bounded `usize` keeps of `v`: below zero the
/// lower bound, above `usize::MAX` the upper bound, otherwise `v` clamped.
pub open spec fn convert_usize(v: int, min: usize, max: usize) -> usize {
    if v < 0 {
        clamp_usize(min as int, min, max)
    } else if v > usize::MAX {
        clamp_usize(max as int, min, max)
    } else {
        clamp_usize(v, min, max)
    }
}

/// `a * b`, pinned to the range of `usize`.
fn saturating_mul_usize(a: usize, b: usize) -> (r: usize)
    ensures
        r == saturate_usize(a * b),
{
    proof {
        assert((a as int) * (b as int) <= (usize::MAX as int) * (usize::MAX as int)) by (nonlinear_arith)
            requires
                0 <= a <= usize::MAX,
                0 <= b <= usize::MAX,
        ;
        assert((usize::MAX as int) * (usize::MAX as int) <= (u64::MAX as int) * (u64::MAX as int)) by (nonlinear_arith);
    }
    let p: u128 = (a as u128) * (b as u128);
    if p > usize::MAX as u128 {
        usize::MAX
    } else {
        p as usize
    }
}

impl<const MIN: usize, const MAX: usize> BoundUSize<MIN, MAX> {
    /// The value held.
    pub closed spec fn value(&self) -> usize {
        self.inner_value
    }

    /// The bounded value that holds `v` as it is.
    pub closed spec fn with_value(v: usize) -> Self {
        Self { inner_value: v }
    }

    /// A bounded value built with `with_value` holds what it was given.
    pub broadcast proof fn lemma_with_value(v: usize)
        ensures
            #[trigger] Self::with_value(v).value() == v,
    {
    }

    /// Holds `value` clamped into the range.
    pub fn new(value: usize) -> (r: Self)
        ensures
            r.value() == clamp_usize(value as int, MIN, MAX),
    {
        if value < MIN {
            Self { inner_value: MIN }
        } else if value > MAX {
            Self { inner_value: MAX }
        } else {
            Self { inner_value: value }
        }
    }

    pub fn get(&self) -> (r: usize)
        ensures
            r == self.value(),
    {
        self.inner_value
    }

    /// Replaces the value by `value` clamped into the range, which must not
    /// be empty.
    pub fn set(&mut self, value: usize)
        requires
            MIN <= MAX,
        ensures
            final(self).value() == clamp_usize(value as int, MIN, MAX),
    {
        *self = Self::new(value);
    }
}

impl<const MIN: usize, const MAX: usize> Default for BoundUSize<MIN, MAX> {
    fn default() -> (r: Self)
        ensures
            r.value() == clamp_usize(MIN as int, MIN, MAX),
    {
        Self::new(MIN)
    }
}

impl<const MIN: usize, const MAX: usize> std::ops::Deref for BoundUSize<MIN, MAX> {
    type Target = usize;

    fn deref(&self) -> (r: &usize)
        ensures
            *r == self.value(),
    {
        &self.inner_value
    }
}

impl<const MIN: usize, const MAX: usize> PartialEq for BoundUSize<MIN, MAX> {
    fn eq(&self, other: &Self) -> (r: bool) {
        self.inner_value == other.inner_value
    }
}

impl<const MIN: usize, const MAX: usize> vstd::std_specs::cmp::PartialEqSpecImpl for BoundUSize<MIN, MAX> {
    open spec fn obeys_eq_spec() -> bool {
        true
    }

    open spec fn eq_spec(&self, other: &Self) -> bool {
        self.value() == other.value()
    }
}

impl<const MIN: usize, const MAX: usize> Eq for BoundUSize<MIN, MAX> {
}

impl<const MIN: usize, const MAX: usize> PartialEq<usize> for BoundUSize<MIN, MAX> {
    fn eq(&self, other: &usize) -> (r: bool) {
        self.inner_value == *other
    }
}

impl<const MIN: usize, const MAX: usize> vstd::std_specs::cmp::PartialEqSpecImpl<usize> for BoundUSize<MIN, MAX> {
    open spec fn obeys_eq_spec() -> bool {
        true
    }

    open spec fn eq_spec(&self, other: &usize) -> bool {
        self.value() == *other
    }
}

impl<const MIN: usize, const MAX: usize> PartialEq<BoundUSize<MIN, MAX>> for usize {
    fn eq(&self, other: &BoundUSize<MIN, MAX>) -> (r: bool) {
        *self == other.inner_value
    }
}

impl<const MIN: usize, const MAX: usize> vstd::std_specs::cmp::PartialEqSpecImpl<BoundUSize<MIN, MAX>> for usize {
    open spec fn obeys_eq_spec() -> bool {
        true
    }

    open spec fn eq_spec(&self, other: &BoundUSize<MIN, MAX>) -> bool {
        *self == other.value()
    }
}

impl<const MIN: usize, const MAX: usize> PartialOrd for BoundUSize<MIN, MAX> {
    fn partial_cmp(&self, other: &Self) -> (r: Option<std::cmp::Ordering>) {
        Some(order_usize(self.inner_value, other.inner_value))
    }
}

impl<const MIN: usize, const MAX: usize> vstd::std_specs::cmp::PartialOrdSpecImpl for BoundUSize<MIN, MAX> {
    open spec fn obeys_partial_cmp_spec() -> bool {
        true
    }

    open spec fn partial_cmp_spec(&self, other: &Self) -> Option<std::cmp::Ordering> {
        Some(compare(self.value() as int, other.value() as int))
    }
}

impl<const MIN: usize, const MAX: usize> PartialOrd<usize> for BoundUSize<MIN, MAX> {
    fn partial_cmp(&self, other: &usize) -> (r: Option<std::cmp::Ordering>) {
        Some(order_usize(self.inner_value, *other))
    }
}

impl<const MIN: usize, const MAX: usize> vstd::std_specs::cmp::PartialOrdSpecImpl<usize> for BoundUSize<MIN, MAX> {
    open spec fn obeys_partial_cmp_spec() -> bool {
        true
    }

    open spec fn partial_cmp_spec(&self, other: &usize) -> Option<std::cmp::Ordering> {
        Some(compare(self.value() as int, *other as int))
    }
}

impl<const MIN: usize, const MAX: usize> PartialOrd<BoundUSize<MIN, MAX>> for usize {
    fn partial_cmp(&self, other: &BoundUSize<MIN, MAX>) -> (r: Option<std::cmp::Ordering>) {
        Some(order_usize(*self, other.inner_value))
    }
}

impl<const MIN: usize, const MAX: usize> vstd::std_specs::cmp::PartialOrdSpecImpl<BoundUSize<MIN, MAX>> for usize {
    open spec fn obeys_partial_cmp_spec() -> bool {
        true
    }

    open spec fn partial_cmp_spec(&self, other: &BoundUSize<MIN, MAX>) -> Option<std::cmp::Ordering> {
        Some(compare(*self as int, other.value() as int))
    }
}

/// The order of two `usize` values.
fn order_usize(a: usize, b: usize) -> (r: std::cmp::Ordering)
    ensures
        r == compare(a as int, b as int),
{
    if a < b {
        std::cmp::Ordering::Less
    } else if a == b {
        std::cmp::Ordering::Equal
    } else {
        std::cmp::Ordering::Greater
    }
}

impl<const MIN: usize, const MAX: usize> std::ops::Add for BoundUSize<MIN, MAX> {
    type Output = Self;

    fn add(self, other: Self) -> (r: Self) {
        let a = self.inner_value;
        let b = other.inner_value;
        Self::new(a.saturating_add(b))
    }
}

impl<const MIN: usize, const MAX: usize> vstd::std_specs::ops::AddSpecImpl for BoundUSize<MIN, MAX> {
    open spec fn obeys_add_spec() -> bool {
        true
    }

    open spec fn add_req(self, other: Self) -> bool {
        true
    }

    open spec fn add_spec(self, other: Self) -> Self {
        Self::with_value(clamp_usize(saturate_usize(self.value() + other.value()) as int, MIN, MAX))
    }
}

impl<const MIN: usize, const MAX: usize> std::ops::Add<usize> for BoundUSize<MIN, MAX> {
    type Output = usize;

    fn add(self, other: usize) -> (r: usize) {
        let a = self.inner_value;
        let b = other;
        a.saturating_add(b)
    }
}

impl<const MIN: usize, const MAX: usize> vstd::std_specs::ops::AddSpecImpl<usize> for BoundUSize<MIN, MAX> {
    open spec fn obeys_add_spec() -> bool {
        true
    }

    open spec fn add_req(self, other: usize) -> bool {
        true
    }

    open spec fn add_spec(self, other: usize) -> usize {
        saturate_usize(self.value() + other)
    }
}

impl<const MIN: usize, const MAX: usize> std::ops::Add<BoundUSize<MIN, MAX>> for usize {
    type Output = usize;

    fn add(self, other: BoundUSize<MIN, MAX>) -> (r: usize) {
        let a = self;
        let b = other.inner_value;
        a.saturating_add(b)
    }
}

impl<const MIN: usize, const MAX: usize> vstd::std_specs::ops::AddSpecImpl<BoundUSize<MIN, MAX>> for usize {
    open spec fn obeys_add_spec() -> bool {
        true
    }

    open spec fn add_req(self, other: BoundUSize<MIN, MAX>) -> bool {
        true
    }

    open spec fn add_spec(self, other: BoundUSize<MIN, MAX>) -> usize {
        saturate_usize(self + other.value())
    }
}

impl<const MIN: usize, const MAX: usize> std::ops::AddAssign for BoundUSize<MIN, MAX> {
    fn add_assign(&mut self, other: Self) {
        let a = self.inner_value;
        let b = other.inner_value;
        *self = Self::new(a.saturating_add(b));
    }
}

impl<const MIN: usize, const MAX: usize> std::ops::AddAssign<usize> for BoundUSize<MIN, MAX> {
    fn add_assign(&mut self, other: usize) {
        let a = self.inner_value;
        let b = other;
        *self = Self::new(a.saturating_add(b));
    }
}

impl<const MIN: usize, const MAX: usize> std::ops::AddAssign<BoundUSize<MIN, MAX>> for usize {
    fn add_assign(&mut self, other: BoundUSize<MIN, MAX>) {
        let a = *self;
        let b = other.inner_value;
        *self = a.saturating_add(b);
    }
}

impl<const MIN: usize, const MAX: usize> std::ops::Sub for BoundUSize<MIN, MAX> {
    type Output = Self;

    fn sub(self, other: Self) -> (r: Self) {
        let a = self.inner_value;
        let b = other.inner_value;
        Self::new(a.saturating_sub(b))
    }
}

impl<const MIN: usize, const MAX: usize> vstd::std_specs::ops::SubSpecImpl for BoundUSize<MIN, MAX> {
    open spec fn obeys_sub_spec() -> bool {
        true
    }

    open spec fn sub_req(self, other: Self) -> bool {
        true
    }

    open spec fn sub_spec(self, other: Self) -> Self {
        Self::with_value(clamp_usize(saturate_usize(self.value() - other.value()) as int, MIN, MAX))
    }
}

impl<const MIN: usize, const MAX: usize> std::ops::Sub<usize> for BoundUSize<MIN, MAX> {
    type Output = usize;

    fn sub(self, other: usize) -> (r: usize) {
        let a = self.inner_value;
        let b = other;
        a.saturating_sub(b)
    }
}

impl<const MIN: usize, const MAX: usize> vstd::std_specs::ops::SubSpecImpl<usize> for BoundUSize<MIN, MAX> {
    open spec fn obeys_sub_spec() -> bool {
        true
    }

    open spec fn sub_req(self, other: usize) -> bool {
        true
    }

    open spec fn sub_spec(self, other: usize) -> usize {
        saturate_usize(self.value() - other)
    }
}

impl<const MIN: usize, const MAX: usize> std::ops::Sub<BoundUSize<MIN, MAX>> for usize {
    type Output = usize;

    fn sub(self, other: BoundUSize<MIN, MAX>) -> (r: usize) {
        let a = self;
        let b = other.inner_value;
        a.saturating_sub(b)
    }
}

impl<const MIN: usize, const MAX: usize> vstd::std_specs::ops::SubSpecImpl<BoundUSize<MIN, MAX>> for usize {
    open spec fn obeys_sub_spec() -> bool {
        true
    }

    open spec fn sub_req(self, other: BoundUSize<MIN, MAX>) -> bool {
        true
    }

    open spec fn sub_spec(self, other: BoundUSize<MIN, MAX>) -> usize {
        saturate_usize(self - other.value())
    }
}

impl<const MIN: usize, const MAX: usize> std::ops::SubAssign for BoundUSize<MIN, MAX> {
    fn sub_assign(&mut self, other: Self) {
        let a = self.inner_value;
        let b = other.inner_value;
        *self = Self::new(a.saturating_sub(b));
    }
}

impl<const MIN: usize, const MAX: usize> std::ops::SubAssign<usize> for BoundUSize<MIN, MAX> {
    fn sub_assign(&mut self, other: usize) {
        let a = self.inner_value;
        let b = other;
        *self = Self::new(a.saturating_sub(b));
    }
}

impl<const MIN: usize, const MAX: usize> std::ops::SubAssign<BoundUSize<MIN, MAX>> for usize {
    fn sub_assign(&mut self, other: BoundUSize<MIN, MAX>) {
        let a = *self;
        let b = other.inner_value;
        *self = a.saturating_sub(b);
    }
}

impl<const MIN: usize, const MAX: usize> std::ops::Mul for BoundUSize<MIN, MAX> {
    type Output = Self;

    fn mul(self, other: Self) -> (r: Self) {
        let a = self.inner_value;
        let b = other.inner_value;
        Self::new(saturating_mul_usize(a, b))
    }
}

impl<const MIN: usize, const MAX: usize> vstd::std_specs::ops::MulSpecImpl for BoundUSize<MIN, MAX> {
    open spec fn obeys_mul_spec() -> bool {
        true
    }

    open spec fn mul_req(self, other: Self) -> bool {
        true
    }

    open spec fn mul_spec(self, other: Self) -> Self {
        Self::with_value(clamp_usize(saturate_usize(self.value() * other.value()) as int, MIN, MAX))
    }
}

impl<const MIN: usize, const MAX: usize> std::ops::Mul<usize> for BoundUSize<MIN, MAX> {
    type Output = usize;

    fn mul(self, other: usize) -> (r: usize) {
        let a = self.inner_value;
        let b = other;
        saturating_mul_usize(a, b)
    }
}

impl<const MIN: usize, const MAX: usize> vstd::std_specs::ops::MulSpecImpl<usize> for BoundUSize<MIN, MAX> {
    open spec fn obeys_mul_spec() -> bool {
        true
    }

    open spec fn mul_req(self, other: usize) -> bool {
        true
    }

    open spec fn mul_spec(self, other: usize) -> usize {
        saturate_usize(self.value() * other)
    }
}

impl<const MIN: usize, const MAX: usize> std::ops::Mul<BoundUSize<MIN, MAX>> for usize {
    type Output = usize;

    fn mul(self, other: BoundUSize<MIN, MAX>) -> (r: usize) {
        let a = self;
        let b = other.inner_value;
        saturating_mul_usize(a, b)
    }
}

impl<const MIN: usize, const MAX: usize> vstd::std_specs::ops::MulSpecImpl<BoundUSize<MIN, MAX>> for usize {
    open spec fn obeys_mul_spec() -> bool {
        true
    }

    open spec fn mul_req(self, other: BoundUSize<MIN, MAX>) -> bool {
        true
    }

    open spec fn mul_spec(self, other: BoundUSize<MIN, MAX>) -> usize {
        saturate_usize(self * other.value())
    }
}

impl<const MIN: usize, const MAX: usize> std::ops::MulAssign for BoundUSize<MIN, MAX> {
    fn mul_assign(&mut self, other: Self) {
        let a = self.inner_value;
        let b = other.inner_value;
        *self = Self::new(saturating_mul_usize(a, b));
    }
}

impl<const MIN: usize, const MAX: usize> std::ops::MulAssign<usize> for BoundUSize<MIN, MAX> {
    fn mul_assign(&mut self, other: usize) {
        let a = self.inner_value;
        let b = other;
        *self = Self::new(saturating_mul_usize(a, b));
    }
}

impl<const MIN: usize, const MAX: usize> std::ops::MulAssign<BoundUSize<MIN, MAX>> for usize {
    fn mul_assign(&mut self, other: BoundUSize<MIN, MAX>) {
        let a = *self;
        let b = other.inner_value;
        *self = saturating_mul_usize(a, b);
    }
}

impl<const MIN: usize, const MAX: usize> std::ops::Div for BoundUSize<MIN, MAX> {
    type Output = Self;

    fn div(self, other: Self) -> (r: Self) {
        let a = self.inner_value;
        let b = other.inner_value;
        Self::new(a / b)
    }
}

impl<const MIN: usize, const MAX: usize> vstd::std_specs::ops::DivSpecImpl for BoundUSize<MIN, MAX> {
    open spec fn obeys_div_spec() -> bool {
        true
    }

    open spec fn div_req(self, other: Self) -> bool {
        other.value() != 0
    }

    open spec fn div_spec(self, other: Self) -> Self {
        Self::with_value(clamp_usize((self.value() / other.value()) as usize as int, MIN, MAX))
    }
}

impl<const MIN: usize, const MAX: usize> std::ops::Div<usize> for BoundUSize<MIN, MAX> {
    type Output = usize;

    fn div(self, other: usize) -> (r: usize) {
        let a = self.inner_value;
        let b = other;
        a / b
    }
}

impl<const MIN: usize, const MAX: usize> vstd::std_specs::ops::DivSpecImpl<usize> for BoundUSize<MIN, MAX> {
    open spec fn obeys_div_spec() -> bool {
        true
    }

    open spec fn div_req(self, other: usize) -> bool {
        other != 0
    }

    open spec fn div_spec(self, other: usize) -> usize {
        (self.value() / other) as usize
    }
}

impl<const MIN: usize, const MAX: usize> std::ops::Div<BoundUSize<MIN, MAX>> for usize {
    type Output = usize;

    fn div(self, other: BoundUSize<MIN, MAX>) -> (r: usize) {
        let a = self;
        let b = other.inner_value;
        a / b
    }
}

impl<const MIN: usize, const MAX: usize> vstd::std_specs::ops::DivSpecImpl<BoundUSize<MIN, MAX>> for usize {
    open spec fn obeys_div_spec() -> bool {
        true
    }

    open spec fn div_req(self, other: BoundUSize<MIN, MAX>) -> bool {
        other.value() != 0
    }

    open spec fn div_spec(self, other: BoundUSize<MIN, MAX>) -> usize {
        (self / other.value()) as usize
    }
}

impl<const MIN: usize, const MAX: usize> std::ops::Rem for BoundUSize<MIN, MAX> {
    type Output = Self;

    fn rem(self, other: Self) -> (r: Self) {
        let a = self.inner_value;
        let b = other.inner_value;
        Self::new(if b == 0 { 0 } else { a % b })
    }
}

impl<const MIN: usize, const MAX: usize> vstd::std_specs::ops::RemSpecImpl for BoundUSize<MIN, MAX> {
    open spec fn obeys_rem_spec() -> bool {
        true
    }

    open spec fn rem_req(self, other: Self) -> bool {
        true
    }

    open spec fn rem_spec(self, other: Self) -> Self {
        Self::with_value(clamp_usize((if other.value() == 0 { 0 } else { self.value() % other.value() }) as usize as int, MIN, MAX))
    }
}

impl<const MIN: usize, const MAX: usize> std::ops::Rem<usize> for BoundUSize<MIN, MAX> {
    type Output = usize;

    fn rem(self, other: usize) -> (r: usize) {
        let a = self.inner_value;
        let b = other;
        if b == 0 { 0 } else { a % b }
    }
}

impl<const MIN: usize, const MAX: usize> vstd::std_specs::ops::RemSpecImpl<usize> for BoundUSize<MIN, MAX> {
    open spec fn obeys_rem_spec() -> bool {
        true
    }

    open spec fn rem_req(self, other: usize) -> bool {
        true
    }

    open spec fn rem_spec(self, other: usize) -> usize {
        (if other == 0 { 0 } else { self.value() % other }) as usize
    }
}

impl<const MIN: usize, const MAX: usize> std::ops::Rem<BoundUSize<MIN, MAX>> for usize {
    type Output = usize;

    fn rem(self, other: BoundUSize<MIN, MAX>) -> (r: usize) {
        let a = self;
        let b = other.inner_value;
        if b == 0 { 0 } else { a % b }
    }
}

impl<const MIN: usize, const MAX: usize> vstd::std_specs::ops::RemSpecImpl<BoundUSize<MIN, MAX>> for usize {
    open spec fn obeys_rem_spec() -> bool {
        true
    }

    open spec fn rem_req(self, other: BoundUSize<MIN, MAX>) -> bool {
        true
    }

    open spec fn rem_spec(self, other: BoundUSize<MIN, MAX>) -> usize {
        (if other.value() == 0 { 0 } else { self % other.value() }) as usize
    }
}

impl<const MIN: usize, const MAX: usize> std::ops::RemAssign for BoundUSize<MIN, MAX> {
    fn rem_assign(&mut self, other: Self) {
        let a = self.inner_value;
        let b = other.inner_value;
        *self = Self::new(if b == 0 { MIN } else { a % b });
    }
}

impl<const MIN: usize, const MAX: usize> std::ops::RemAssign<usize> for BoundUSize<MIN, MAX> {
    fn rem_assign(&mut self, other: usize) {
        let a = self.inner_value;
        let b = other;
        *self = Self::new(if b == 0 { MIN } else { a % b });
    }
}

impl<const MIN: usize, const MAX: usize> std::ops::RemAssign<BoundUSize<MIN, MAX>> for usize {
    fn rem_assign(&mut self, other: BoundUSize<MIN, MAX>) {
        let a = *self;
        let b = other.inner_value;
        *self = if b == 0 { 0 } else { a % b };
    }
}

impl<const MIN: usize, const MAX: usize> From<usize> for BoundUSize<MIN, MAX> {
    fn from(value: usize) -> (r: Self) {
        Self::new(value)
    }
}

impl<const MIN: usize, const MAX: usize> vstd::std_specs::convert::FromSpecImpl<usize> for BoundUSize<MIN, MAX> {
    open spec fn obeys_from_spec() -> bool {
        true
    }

    open spec fn from_spec(value: usize) -> Self {
        Self::with_value(convert_usize(value as int, MIN, MAX))
    }
}

impl<const MIN: usize, const MAX: usize> From<BoundUSize<MIN, MAX>> for usize {
    fn from(value: BoundUSize<MIN, MAX>) -> (r: usize) {
        value.inner_value
    }
}

impl<const MIN: usize, const MAX: usize> vstd::std_specs::convert::FromSpecImpl<BoundUSize<MIN, MAX>> for usize {
    open spec fn obeys_from_spec() -> bool {
        true
    }

    open spec fn from_spec(value: BoundUSize<MIN, MAX>) -> usize {
        value.value()
    }
}

} // verus!
