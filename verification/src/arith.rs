//! Addition and subtraction of timestamps and of raw tick counts.
//!
//! All arithmetic is on the raw 64-bit value and wraps around at 2^64. A
//! difference of two timestamps is a count of elapsed fraction units and need
//! not be a meaningful point in time. Every operator, by value or by
//! reference, goes through `NTP64::plus` or `NTP64::minus`, so the result
//! never depends on how an operand is passed.

use crate::timestamp::NTP64;
use std::ops::{Add, AddAssign, Sub, SubAssign};
use vstd::prelude::*;
use vstd::std_specs::ops::{AddSpec, SubSpec};

verus! {

/// The sum of two raw values, wrapped around at 2^64.
pub open spec fn wrapping_sum(a: nat, b: nat) -> nat {
    ((a + b) % 0x1_0000_0000_0000_0000) as nat
}

/// The difference of two raw values, wrapped around at 2^64.
pub open spec fn wrapping_difference(a: nat, b: nat) -> nat {
    ((a - b) % 0x1_0000_0000_0000_0000) as nat
}

impl NTP64 {
    /// The timestamp `ticks` fraction units later, wrapping around at 2^64.
    pub fn plus(self, ticks: u64) -> (t: NTP64)
        ensures
            t@ == wrapping_sum(self@, ticks as nat),
            self@ + ticks <= u64::MAX ==> t@ == self@ + ticks,
    {
        NTP64(self.0.wrapping_add(ticks))
    }

    /// The timestamp `ticks` fraction units earlier, wrapping around at 2^64.
    pub fn minus(self, ticks: u64) -> (t: NTP64)
        ensures
            t@ == wrapping_difference(self@, ticks as nat),
            ticks <= self@ ==> t@ == self@ - ticks,
    {
        NTP64(self.0.wrapping_sub(ticks))
    }
}

impl vstd::std_specs::ops::AddSpecImpl<NTP64> for NTP64 {
    open spec fn obeys_add_spec() -> bool {
        true
    }

    open spec fn add_req(self, rhs: NTP64) -> bool {
        true
    }

    open spec fn add_spec(self, rhs: NTP64) -> NTP64 {
        NTP64(wrapping_sum(self@, rhs@) as u64)
    }
}

/// `a + b`: the wrapping sum of the two raw values.
impl Add<NTP64> for NTP64 {
    type Output = NTP64;

    fn add(self, other: NTP64) -> NTP64 {
        self.plus(other.0)
    }
}

impl<'a> vstd::std_specs::ops::AddSpecImpl<NTP64> for &'a NTP64 {
    open spec fn obeys_add_spec() -> bool {
        true
    }

    open spec fn add_req(self, rhs: NTP64) -> bool {
        true
    }

    open spec fn add_spec(self, rhs: NTP64) -> NTP64 {
        NTP64(wrapping_sum(self@, rhs@) as u64)
    }
}

/// `&a + b`: the same as `a + b`.
impl<'a> Add<NTP64> for &'a NTP64 {
    type Output = NTP64;

    fn add(self, other: NTP64) -> NTP64 {
        self.plus(other.0)
    }
}

impl<'a> vstd::std_specs::ops::AddSpecImpl<&'a NTP64> for NTP64 {
    open spec fn obeys_add_spec() -> bool {
        true
    }

    open spec fn add_req(self, rhs: &'a NTP64) -> bool {
        true
    }

    open spec fn add_spec(self, rhs: &'a NTP64) -> NTP64 {
        NTP64(wrapping_sum(self@, rhs@) as u64)
    }
}

/// `a + &b`: the same as `a + b`.
impl<'a> Add<&'a NTP64> for NTP64 {
    type Output = NTP64;

    fn add(self, other: &'a NTP64) -> NTP64 {
        self.plus(other.0)
    }
}

impl<'a, 'b> vstd::std_specs::ops::AddSpecImpl<&'b NTP64> for &'a NTP64 {
    open spec fn obeys_add_spec() -> bool {
        true
    }

    open spec fn add_req(self, rhs: &'b NTP64) -> bool {
        true
    }

    open spec fn add_spec(self, rhs: &'b NTP64) -> NTP64 {
        NTP64(wrapping_sum(self@, rhs@) as u64)
    }
}

/// `&a + &b`: the same as `a + b`.
impl<'a, 'b> Add<&'b NTP64> for &'a NTP64 {
    type Output = NTP64;

    fn add(self, other: &'b NTP64) -> NTP64 {
        self.plus(other.0)
    }
}

impl vstd::std_specs::ops::AddSpecImpl<u64> for NTP64 {
    open spec fn obeys_add_spec() -> bool {
        true
    }

    open spec fn add_req(self, rhs: u64) -> bool {
        true
    }

    open spec fn add_spec(self, rhs: u64) -> NTP64 {
        NTP64(wrapping_sum(self@, rhs as nat) as u64)
    }
}

/// `a + ticks`: the timestamp moved by a count of fraction units, wrapping.
impl Add<u64> for NTP64 {
    type Output = NTP64;

    fn add(self, other: u64) -> NTP64 {
        self.plus(other)
    }
}

/// `a += ticks`: replaces the whole value by `a + ticks`.
impl AddAssign<u64> for NTP64 {
    fn add_assign(&mut self, other: u64)
        ensures
            final(self)@ == wrapping_sum(old(self)@, other as nat),
    {
        *self = self.plus(other);
    }
}

impl vstd::std_specs::ops::SubSpecImpl<NTP64> for NTP64 {
    open spec fn obeys_sub_spec() -> bool {
        true
    }

    open spec fn sub_req(self, rhs: NTP64) -> bool {
        true
    }

    open spec fn sub_spec(self, rhs: NTP64) -> NTP64 {
        NTP64(wrapping_difference(self@, rhs@) as u64)
    }
}

/// `a - b`: the wrapping difference of the two raw values.
impl Sub<NTP64> for NTP64 {
    type Output = NTP64;

    fn sub(self, other: NTP64) -> NTP64 {
        self.minus(other.0)
    }
}

impl<'a> vstd::std_specs::ops::SubSpecImpl<NTP64> for &'a NTP64 {
    open spec fn obeys_sub_spec() -> bool {
        true
    }

    open spec fn sub_req(self, rhs: NTP64) -> bool {
        true
    }

    open spec fn sub_spec(self, rhs: NTP64) -> NTP64 {
        NTP64(wrapping_difference(self@, rhs@) as u64)
    }
}

/// `&a - b`: the same as `a - b`.
impl<'a> Sub<NTP64> for &'a NTP64 {
    type Output = NTP64;

    fn sub(self, other: NTP64) -> NTP64 {
        self.minus(other.0)
    }
}

impl<'a> vstd::std_specs::ops::SubSpecImpl<&'a NTP64> for NTP64 {
    open spec fn obeys_sub_spec() -> bool {
        true
    }

    open spec fn sub_req(self, rhs: &'a NTP64) -> bool {
        true
    }

    open spec fn sub_spec(self, rhs: &'a NTP64) -> NTP64 {
        NTP64(wrapping_difference(self@, rhs@) as u64)
    }
}

/// `a - &b`: the same as `a - b`.
impl<'a> Sub<&'a NTP64> for NTP64 {
    type Output = NTP64;

    fn sub(self, other: &'a NTP64) -> NTP64 {
        self.minus(other.0)
    }
}

impl<'a, 'b> vstd::std_specs::ops::SubSpecImpl<&'b NTP64> for &'a NTP64 {
    open spec fn obeys_sub_spec() -> bool {
        true
    }

    open spec fn sub_req(self, rhs: &'b NTP64) -> bool {
        true
    }

    open spec fn sub_spec(self, rhs: &'b NTP64) -> NTP64 {
        NTP64(wrapping_difference(self@, rhs@) as u64)
    }
}

/// `&a - &b`: the same as `a - b`.
impl<'a, 'b> Sub<&'b NTP64> for &'a NTP64 {
    type Output = NTP64;

    fn sub(self, other: &'b NTP64) -> NTP64 {
        self.minus(other.0)
    }
}

impl vstd::std_specs::ops::SubSpecImpl<u64> for NTP64 {
    open spec fn obeys_sub_spec() -> bool {
        true
    }

    open spec fn sub_req(self, rhs: u64) -> bool {
        true
    }

    open spec fn sub_spec(self, rhs: u64) -> NTP64 {
        NTP64(wrapping_difference(self@, rhs as nat) as u64)
    }
}

/// `a - ticks`: the timestamp moved by a count of fraction units, wrapping.
impl Sub<u64> for NTP64 {
    type Output = NTP64;

    fn sub(self, other: u64) -> NTP64 {
        self.minus(other)
    }
}

/// `a -= ticks`: replaces the whole value by `a - ticks`.
impl SubAssign<u64> for NTP64 {
    fn sub_assign(&mut self, other: u64)
        ensures
            final(self)@ == wrapping_difference(old(self)@, other as nat),
    {
        *self = self.minus(other);
    }
}

/// An operator gives the same timestamp whether its operands are passed by
/// value or by reference, and a sum or difference of two timestamps is the
/// sum or difference with the other's raw value.
pub proof fn lemma_operands_by_reference(a: NTP64, b: NTP64)
    ensures
        (&a).add_spec(b) == a.add_spec(b),
        a.add_spec(&b) == a.add_spec(b),
        (&a).add_spec(&b) == a.add_spec(b),
        a.add_spec(b) == a.add_spec(b.0),
        (&a).sub_spec(b) == a.sub_spec(b),
        a.sub_spec(&b) == a.sub_spec(b),
        (&a).sub_spec(&b) == a.sub_spec(b),
        a.sub_spec(b) == a.sub_spec(b.0),
{
}

} // verus!
