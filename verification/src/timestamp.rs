//! The timestamp value and its decomposition into seconds and fraction.

use crate::clock::{duration_secs, duration_subsec_nanos, epoch_offset, unix_epoch_plus};
use std::time::{Duration, SystemTime};
use vstd::prelude::*;

verus! {

/// Largest count of whole seconds that the upper 32 bits can hold.
pub const MAX_NB_SEC: u64 = 0xFFFF_FFFF;

/// Number of fraction units in one second (2^32).
pub const FRAC_PER_SEC: u64 = 0x1_0000_0000;

/// Mask that keeps the fraction bits of a raw value.
pub const FRAC_MASK: u64 = 0xFFFF_FFFF;

/// Number of nanoseconds in one second.
pub const NANO_PER_SEC: u64 = 1_000_000_000;

/// The whole seconds held in the upper 32 bits of `raw`.
pub open spec fn seconds_of(raw: nat) -> nat {
    raw / 0x1_0000_0000
}

/// The fraction of a second held in the lower 32 bits of `raw`, in units of 2^-32 s.
pub open spec fn fraction_of(raw: nat) -> nat {
    raw % 0x1_0000_0000
}

/// A fraction in units of 2^-32 s as whole nanoseconds, rounded down.
pub open spec fn fraction_to_nanos(fraction: nat) -> nat {
    fraction * 1_000_000_000 / 0x1_0000_0000
}

/// A count of nanoseconds as a fraction in units of 2^-32 s, rounded down.
pub open spec fn nanos_to_fraction(nanos: nat) -> nat {
    nanos * 0x1_0000_0000 / 1_000_000_000
}

/// The raw value of the timestamp made from `secs` whole seconds and `nanos`
/// nanoseconds: seconds above, rounded-down fraction below, plus one unit.
pub open spec fn timestamp_of(secs: nat, nanos: nat) -> nat {
    secs * 0x1_0000_0000 + nanos_to_fraction(nanos) + 1
}

/// A 64-bit timestamp: seconds in bits 63..32, fraction of a second in bits 31..0.
///
/// The type looks at all 64 bits alike; whoever overwrites low fraction bits
/// with a logical counter does so from outside. Equality and order are those
/// of the raw integer.
#[derive(Copy, Clone, Hash, PartialEq, Eq, Ord, Structural)]
pub struct NTP64(pub u64);

impl View for NTP64 {
    type V = nat;

    /// The timestamp as the natural number that its 64 bits spell.
    open spec fn view(&self) -> nat {
        self.0 as nat
    }
}

impl Default for NTP64 {
    /// The zero timestamp: no seconds, no fraction.
    fn default() -> (t: NTP64)
        ensures
            t@ == 0,
    {
        NTP64(0)
    }
}

impl NTP64 {
    /// Returns the raw 64-bit value.
    pub fn as_u64(&self) -> (raw: u64)
        ensures
            raw == self@,
    {
        self.0
    }

    /// Returns the seconds part: the upper 32 bits.
    pub fn as_secs(&self) -> (secs: u32)
        ensures
            secs == seconds_of(self@),
    {
        let raw: u64 = self.0;
        assert(raw >> 32 == raw / 0x1_0000_0000 && (raw >> 32) <= 0xFFFF_FFFF) by (bit_vector);
        (raw >> 32) as u32
    }

    /// Returns the fraction part converted to nanoseconds, rounded down.
    ///
    /// Several fractions share one nanosecond count, since a fraction unit is
    /// about 0.233 ns.
    pub fn subsec_nanos(&self) -> (nanos: u32)
        ensures
            nanos == fraction_to_nanos(fraction_of(self@)),
            nanos < 1_000_000_000,
    {
        let raw: u64 = self.0;
        assert(raw & 0xFFFF_FFFF == raw % 0x1_0000_0000) by (bit_vector);
        let frac: u64 = raw & FRAC_MASK;
        ((frac * NANO_PER_SEC) / FRAC_PER_SEC) as u32
    }

    /// Converts to a `Duration` of `as_secs()` seconds and `subsec_nanos()`
    /// nanoseconds.
    pub fn to_duration(self) -> (d: Duration)
        ensures
            duration_secs(d) == seconds_of(self@),
            duration_subsec_nanos(d) == fraction_to_nanos(fraction_of(self@)),
    {
        let secs: u32 = self.as_secs();
        let nanos: u32 = self.subsec_nanos();
        Duration::new(secs as u64, nanos)
    }

    /// Converts to a point on the system clock, reading the timestamp as time
    /// elapsed since 1970-01-01T00:00:00Z.
    pub fn to_system_time(self) -> (t: SystemTime)
        ensures
            epoch_offset(t) == Some(
                (seconds_of(self@) as u64, fraction_to_nanos(fraction_of(self@)) as u32),
            ),
    {
        unix_epoch_plus(self.to_duration())
    }

    /// Builds a timestamp from a duration: the seconds go to the upper 32
    /// bits, the nanoseconds become a fraction rounded down, and 1 is added to
    /// the raw value.
    ///
    /// The added unit makes up for the rounding: the timestamp gives back the
    /// very nanoseconds it was built from (see `lemma_duration_round_trip`).
    /// A duration of more than `MAX_NB_SEC` seconds has no timestamp.
    pub fn from(duration: Duration) -> (t: NTP64)
        requires
            duration_secs(duration) <= MAX_NB_SEC,
        ensures
            t@ == timestamp_of(duration_secs(duration) as nat, duration_subsec_nanos(duration) as nat),
            seconds_of(t@) == duration_secs(duration),
            fraction_to_nanos(fraction_of(t@)) == duration_subsec_nanos(duration),
    {
        let secs: u64 = duration.as_secs();
        let nanos: u64 = duration.subsec_nanos() as u64;
        assert(secs << 32 == secs * 0x1_0000_0000) by (bit_vector)
            requires
                secs <= 0xFFFF_FFFF,
        ;
        NTP64((secs << 32) + ((nanos * FRAC_PER_SEC) / NANO_PER_SEC) + 1)
    }
}

/// A duration of at most `MAX_NB_SEC` seconds has a timestamp, and the
/// timestamp gives the duration back: its seconds are the duration's seconds
/// and its fraction, converted to nanoseconds, is the duration's nanoseconds.
pub proof fn lemma_duration_round_trip(secs: nat, nanos: nat)
    requires
        secs <= MAX_NB_SEC,
        nanos < 1_000_000_000,
    ensures
        timestamp_of(secs, nanos) <= u64::MAX,
        seconds_of(timestamp_of(secs, nanos)) == secs,
        fraction_of(timestamp_of(secs, nanos)) == nanos_to_fraction(nanos) + 1,
        fraction_to_nanos(fraction_of(timestamp_of(secs, nanos))) == nanos,
{
}

/// Going from a timestamp to its duration and back moves the raw value by a
/// few fraction units at most: down by no more than 4, up by no more than 1.
pub proof fn lemma_timestamp_round_trip_is_close(raw: nat)
    requires
        raw <= u64::MAX,
    ensures
        raw - 4 <= timestamp_of(seconds_of(raw), fraction_to_nanos(fraction_of(raw))) <= raw + 1,
        timestamp_of(seconds_of(raw), fraction_to_nanos(fraction_of(raw))) <= u64::MAX,
{
}

} // verus!
