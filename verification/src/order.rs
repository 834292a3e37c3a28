//! The order of timestamps: that of their raw values, as unsigned integers.
//!
//! Whatever sits in the low fraction bits takes part in the comparison like any
//! other bit, so two timestamps are told apart without consulting anything but
//! the 64 bits themselves.

use crate::timestamp::NTP64;
use std::cmp::Ordering;
use vstd::prelude::*;
use vstd::std_specs::cmp::PartialOrdSpec;

verus! {

impl PartialOrd for NTP64 {
    fn partial_cmp(&self, other: &NTP64) -> (r: Option<Ordering>) {
        if self.0 < other.0 {
            Some(Ordering::Less)
        } else if self.0 > other.0 {
            Some(Ordering::Greater)
        } else {
            Some(Ordering::Equal)
        }
    }
}

impl vstd::std_specs::cmp::PartialOrdSpecImpl for NTP64 {
    open spec fn obeys_partial_cmp_spec() -> bool {
        true
    }

    open spec fn partial_cmp_spec(&self, other: &NTP64) -> Option<Ordering> {
        if self@ < other@ {
            Some(Ordering::Less)
        } else if self@ > other@ {
            Some(Ordering::Greater)
        } else {
            Some(Ordering::Equal)
        }
    }
}

/// Comparing two timestamps is comparing their raw values: `a < b` holds of
/// the timestamps exactly when it holds of the integers, and likewise `==` and
/// `>`. The comparison always has an answer.
pub proof fn lemma_order_is_raw_order(a: NTP64, b: NTP64)
    ensures
        a.partial_cmp_spec(&b) is Some,
        (a.partial_cmp_spec(&b) == Some(Ordering::Less)) <==> a.0 < b.0,
        (a.partial_cmp_spec(&b) == Some(Ordering::Equal)) <==> a.0 == b.0,
        (a.partial_cmp_spec(&b) == Some(Ordering::Greater)) <==> a.0 > b.0,
        (a == b) <==> a.0 == b.0,
{
}

/// The order is strict and total: of `a < b`, `a == b` and `a > b` exactly one
/// holds, and `a < b` is `b > a`.
pub proof fn lemma_order_is_total(a: NTP64, b: NTP64)
    ensures
        (a.partial_cmp_spec(&b) == Some(Ordering::Less)) || a == b || (a.partial_cmp_spec(&b)
            == Some(Ordering::Greater)),
        !((a.partial_cmp_spec(&b) == Some(Ordering::Less)) && a == b),
        !((a.partial_cmp_spec(&b) == Some(Ordering::Greater)) && a == b),
        !((a.partial_cmp_spec(&b) == Some(Ordering::Less)) && (a.partial_cmp_spec(&b) == Some(
            Ordering::Greater,
        ))),
        (a.partial_cmp_spec(&b) == Some(Ordering::Less)) <==> (b.partial_cmp_spec(&a) == Some(
            Ordering::Greater,
        )),
{
}

/// The order is transitive.
pub proof fn lemma_order_is_transitive(a: NTP64, b: NTP64, c: NTP64)
    requires
        a.partial_cmp_spec(&b) == Some(Ordering::Less),
        b.partial_cmp_spec(&c) == Some(Ordering::Less),
    ensures
        a.partial_cmp_spec(&c) == Some(Ordering::Less),
{
}

} // verus!
