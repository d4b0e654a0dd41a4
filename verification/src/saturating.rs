use core::cmp::Ordering;
use vstd::std_specs::cmp::PartialOrdSpec;
use vstd::prelude::*;
use vstd::std_specs::ops::AddSpec;

verus! {

/// The largest value a `SaturatingU16` can hold.
pub open spec fn saturating_max() -> int {
    0xffff
}

/// The sum of two values, clamped at the top of the `u16` range.
pub open spec fn saturating_sum(a: int, b: int) -> int {
    if a + b > saturating_max() {
        saturating_max()
    } else {
        a + b
    }
}

/// A `u16` whose addition saturates at `u16::MAX` instead of overflowing.
#[derive(Debug, PartialEq, Eq, Structural)]
pub struct SaturatingU16 {
    value: u16,
}

impl View for SaturatingU16 {
    type V = u16;

    closed spec fn view(&self) -> u16 {
        self.value
    }
}

impl SaturatingU16 {
    /// Wraps `value`.
    pub fn new(value: u16) -> (r: SaturatingU16)
        ensures
            r@ == value,
    {
        SaturatingU16 { value }
    }

    /// The wrapped value.
    pub fn value(&self) -> (r: u16)
        ensures
            r == self@,
    {
        self.value
    }
}

impl core::ops::Add for SaturatingU16 {
    type Output = SaturatingU16;

    /// Adds the two values, saturating at `u16::MAX`.
    fn add(self, addition: SaturatingU16) -> (r: SaturatingU16)
        ensures
            r@ == saturating_sum(self@ as int, addition@ as int),
    {
        SaturatingU16::new(self.value.saturating_add(addition.value))
    }
}

impl vstd::std_specs::ops::AddSpecImpl for SaturatingU16 {
    open spec fn obeys_add_spec() -> bool {
        true
    }

    open spec fn add_req(self, rhs: SaturatingU16) -> bool {
        true
    }

    closed spec fn add_spec(self, rhs: SaturatingU16) -> SaturatingU16 {
        SaturatingU16 { value: saturating_sum(self@ as int, rhs@ as int) as u16 }
    }
}

impl core::ops::Add<u16> for SaturatingU16 {
    type Output = SaturatingU16;

    /// Adds a plain value, saturating at `u16::MAX`.
    fn add(self, addition: u16) -> (r: SaturatingU16)
        ensures
            r@ == saturating_sum(self@ as int, addition as int),
    {
        SaturatingU16::new(self.value.saturating_add(addition))
    }
}

impl vstd::std_specs::ops::AddSpecImpl<u16> for SaturatingU16 {
    open spec fn obeys_add_spec() -> bool {
        true
    }

    open spec fn add_req(self, rhs: u16) -> bool {
        true
    }

    closed spec fn add_spec(self, rhs: u16) -> SaturatingU16 {
        SaturatingU16 { value: saturating_sum(self@ as int, rhs as int) as u16 }
    }
}

impl<'a> core::ops::Add<&'a u16> for SaturatingU16 {
    type Output = SaturatingU16;

    /// Adds a borrowed plain value, saturating at `u16::MAX`.
    fn add(self, addition: &'a u16) -> (r: SaturatingU16)
        ensures
            r@ == saturating_sum(self@ as int, *addition as int),
    {
        SaturatingU16::new(self.value.saturating_add(*addition))
    }
}

impl<'a> vstd::std_specs::ops::AddSpecImpl<&'a u16> for SaturatingU16 {
    open spec fn obeys_add_spec() -> bool {
        true
    }

    open spec fn add_req(self, rhs: &'a u16) -> bool {
        true
    }

    closed spec fn add_spec(self, rhs: &'a u16) -> SaturatingU16 {
        SaturatingU16 { value: saturating_sum(self@ as int, *rhs as int) as u16 }
    }
}

impl<'a> core::ops::Add<&'a SaturatingU16> for SaturatingU16 {
    type Output = SaturatingU16;

    /// Adds a borrowed value, saturating at `u16::MAX`.
    fn add(self, addition: &'a SaturatingU16) -> (r: SaturatingU16)
        ensures
            r@ == saturating_sum(self@ as int, addition@ as int),
    {
        SaturatingU16::new(self.value.saturating_add(addition.value))
    }
}

impl<'a> vstd::std_specs::ops::AddSpecImpl<&'a SaturatingU16> for SaturatingU16 {
    open spec fn obeys_add_spec() -> bool {
        true
    }

    open spec fn add_req(self, rhs: &'a SaturatingU16) -> bool {
        true
    }

    closed spec fn add_spec(self, rhs: &'a SaturatingU16) -> SaturatingU16 {
        SaturatingU16 { value: saturating_sum(self@ as int, rhs@ as int) as u16 }
    }
}

impl From<u16> for SaturatingU16 {
    fn from(value: u16) -> (r: SaturatingU16)
        ensures
            r@ == value,
    {
        SaturatingU16::new(value)
    }
}

impl vstd::std_specs::convert::FromSpecImpl<u16> for SaturatingU16 {
    open spec fn obeys_from_spec() -> bool {
        true
    }

    closed spec fn from_spec(v: u16) -> SaturatingU16 {
        SaturatingU16 { value: v }
    }
}

impl From<u8> for SaturatingU16 {
    fn from(value: u8) -> (r: SaturatingU16)
        ensures
            r@ == value,
    {
        SaturatingU16::new(value as u16)
    }
}

impl vstd::std_specs::convert::FromSpecImpl<u8> for SaturatingU16 {
    open spec fn obeys_from_spec() -> bool {
        true
    }

    closed spec fn from_spec(v: u8) -> SaturatingU16 {
        SaturatingU16 { value: v as u16 }
    }
}

impl<'a> From<&'a u16> for SaturatingU16 {
    fn from(value: &'a u16) -> (r: SaturatingU16)
        ensures
            r@ == *value,
    {
        SaturatingU16::new(*value)
    }
}

impl<'a> vstd::std_specs::convert::FromSpecImpl<&'a u16> for SaturatingU16 {
    open spec fn obeys_from_spec() -> bool {
        true
    }

    closed spec fn from_spec(v: &'a u16) -> SaturatingU16 {
        SaturatingU16 { value: *v }
    }
}

impl<'a> From<&'a u8> for SaturatingU16 {
    fn from(value: &'a u8) -> (r: SaturatingU16)
        ensures
            r@ == *value,
    {
        SaturatingU16::new(*value as u16)
    }
}

impl<'a> vstd::std_specs::convert::FromSpecImpl<&'a u8> for SaturatingU16 {
    open spec fn obeys_from_spec() -> bool {
        true
    }

    closed spec fn from_spec(v: &'a u8) -> SaturatingU16 {
        SaturatingU16 { value: *v as u16 }
    }
}

/// The order of two values, as `u16` orders them.
pub open spec fn order_of(a: u16, b: u16) -> Ordering {
    if a < b {
        Ordering::Less
    } else if a == b {
        Ordering::Equal
    } else {
        Ordering::Greater
    }
}

impl PartialOrd for SaturatingU16 {
    fn partial_cmp(&self, other: &SaturatingU16) -> (r: Option<Ordering>)
        ensures
            r == Some(order_of(self@, other@)),
    {
        if self.value < other.value {
            Some(Ordering::Less)
        } else if self.value == other.value {
            Some(Ordering::Equal)
        } else {
            Some(Ordering::Greater)
        }
    }
}

impl vstd::std_specs::cmp::PartialOrdSpecImpl for SaturatingU16 {
    open spec fn obeys_partial_cmp_spec() -> bool {
        true
    }

    open spec fn partial_cmp_spec(&self, other: &SaturatingU16) -> Option<Ordering> {
        Some(order_of(self@, other@))
    }
}

impl PartialEq<u16> for SaturatingU16 {
    /// Whether the value is `other`.
    fn eq(&self, other: &u16) -> (r: bool)
        ensures
            r == (self@ == *other),
    {
        self.value == *other
    }
}

impl vstd::std_specs::cmp::PartialEqSpecImpl<u16> for SaturatingU16 {
    open spec fn obeys_eq_spec() -> bool {
        true
    }

    open spec fn eq_spec(&self, other: &u16) -> bool {
        self@ == *other
    }
}

impl PartialOrd<u16> for SaturatingU16 {
    fn partial_cmp(&self, other: &u16) -> (r: Option<Ordering>)
        ensures
            r == Some(order_of(self@, *other)),
    {
        if self.value < *other {
            Some(Ordering::Less)
        } else if self.value == *other {
            Some(Ordering::Equal)
        } else {
            Some(Ordering::Greater)
        }
    }
}

impl vstd::std_specs::cmp::PartialOrdSpecImpl<u16> for SaturatingU16 {
    open spec fn obeys_partial_cmp_spec() -> bool {
        true
    }

    open spec fn partial_cmp_spec(&self, other: &u16) -> Option<Ordering> {
        Some(order_of(self@, *other))
    }
}

/// Values are compared as the numbers they hold: one is less than, equal to
/// or greater than another (or a `u16`) exactly when its number is, whatever
/// the numbers are.
pub proof fn comparison_follows_numbers(a: SaturatingU16, b: SaturatingU16, c: u16)
    ensures
        (a.partial_cmp_spec(&b) == Some(Ordering::Less)) == (a@ < b@),
        (a.partial_cmp_spec(&b) == Some(Ordering::Equal)) == (a@ == b@),
        (a.partial_cmp_spec(&b) == Some(Ordering::Greater)) == (a@ > b@),
        (a.partial_cmp_spec(&c) == Some(Ordering::Less)) == (a@ < c),
        (a.partial_cmp_spec(&c) == Some(Ordering::Equal)) == (a@ == c),
        (a.partial_cmp_spec(&c) == Some(Ordering::Greater)) == (a@ > c),
{
}

/// What `a + b` gives, as a value: the sum of the two values, capped at
/// `u16::MAX`.
pub proof fn add_saturates(a: SaturatingU16, b: SaturatingU16)
    ensures
        a.add_spec(b)@ == saturating_sum(a@ as int, b@ as int),
        a@ + b@ <= saturating_max() ==> a.add_spec(b)@ == a@ + b@,
        a@ + b@ > saturating_max() ==> a.add_spec(b)@ == saturating_max(),
{
}

/// Adding a value, a borrowed value, a `u16` or a borrowed `u16` gives the
/// same result.
pub proof fn additions_agree(a: SaturatingU16, b: SaturatingU16)
    ensures
        <SaturatingU16 as AddSpec<u16>>::add_spec(a, b@) == a.add_spec(b),
        <SaturatingU16 as AddSpec<&u16>>::add_spec(a, &b@) == a.add_spec(b),
        <SaturatingU16 as AddSpec<&SaturatingU16>>::add_spec(a, &b) == a.add_spec(b),
{
}

/// Saturating addition is commutative: `a + b == b + a`.
pub proof fn add_commutative(a: SaturatingU16, b: SaturatingU16)
    ensures
        a.add_spec(b) == b.add_spec(a),
{
}

/// Saturating addition is associative: `(a + b) + c == a + (b + c)`.
pub proof fn add_associative(a: SaturatingU16, b: SaturatingU16, c: SaturatingU16)
    ensures
        a.add_spec(b).add_spec(c) == a.add_spec(b.add_spec(c)),
{
}

/// Zero is the neutral element: `a + 0 == a`.
pub proof fn add_zero_is_identity(a: SaturatingU16, zero: SaturatingU16)
    requires
        zero@ == 0,
    ensures
        a.add_spec(zero) == a,
{
}

/// Addition never makes a value smaller, and once the maximum is reached it
/// stays there whatever is added.
pub proof fn add_is_monotonic(a: SaturatingU16, b: SaturatingU16)
    ensures
        a.add_spec(b)@ >= a@,
        a.add_spec(b)@ >= b@,
        a@ == saturating_max() ==> a.add_spec(b)@ == saturating_max(),
{
}

/// Every conversion builds the same value as `new` does from the widened
/// number.
pub proof fn conversions_agree(small: u8, wide: u16)
    ensures
        <SaturatingU16 as vstd::std_specs::convert::FromSpec<u8>>::from_spec(small)
            == <SaturatingU16 as vstd::std_specs::convert::FromSpec<&u8>>::from_spec(&small),
        <SaturatingU16 as vstd::std_specs::convert::FromSpec<u16>>::from_spec(wide)
            == <SaturatingU16 as vstd::std_specs::convert::FromSpec<&u16>>::from_spec(&wide),
        <SaturatingU16 as vstd::std_specs::convert::FromSpec<u8>>::from_spec(small)@ == small,
        <SaturatingU16 as vstd::std_specs::convert::FromSpec<u16>>::from_spec(wide)@ == wide,
{
}

} // verus!
