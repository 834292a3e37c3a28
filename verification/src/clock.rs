//! What this library takes on trust from `std::time`.
//!
//! `Duration` and `SystemTime` are opaque to the verifier. The names below say
//! what their accessors return, and each contract repeats what the standard
//! library documents of one function. None of it is proved here.

use std::time::{Duration, SystemTime, SystemTimeError, UNIX_EPOCH};
use vstd::prelude::*;

verus! {

/// `std::time::SystemTime`, a point on the system clock, carried as an opaque value.
#[verifier::external_type_specification]
#[verifier::external_body]
pub struct ExSystemTime(SystemTime);

/// `std::time::SystemTimeError`, the failure of `SystemTime::duration_since`.
#[verifier::external_type_specification]
#[verifier::external_body]
pub struct ExSystemTimeError(SystemTimeError);

/// The whole seconds of a duration: what `Duration::as_secs` returns.
pub uninterp spec fn duration_secs(d: Duration) -> u64;

/// The part of a duration below one second, in nanoseconds: what
/// `Duration::subsec_nanos` returns.
pub uninterp spec fn duration_subsec_nanos(d: Duration) -> u32;

/// How far a point in time lies after 1970-01-01T00:00:00Z, as whole seconds
/// and nanoseconds below a second: what `SystemTime::duration_since(UNIX_EPOCH)`
/// returns, or `None` for a point before that instant.
pub uninterp spec fn epoch_offset(t: SystemTime) -> Option<(u64, u32)>;

/// `Duration::new`: the duration of `secs` seconds and `nanos` nanoseconds,
/// where a billion nanoseconds or more carry into the seconds. It panics when
/// the carry overflows the seconds, which `requires` rules out.
pub assume_specification[ Duration::new ](secs: u64, nanos: u32) -> (d: Duration)
    requires
        secs + nanos / 1_000_000_000 <= u64::MAX,
    ensures
        duration_secs(d) == secs + nanos / 1_000_000_000,
        duration_subsec_nanos(d) == nanos % 1_000_000_000,
;

/// `Duration::as_secs`: the whole seconds of the duration.
pub assume_specification[ Duration::as_secs ](d: &Duration) -> (secs: u64)
    ensures
        secs == duration_secs(*d),
;

/// `Duration::subsec_nanos`: the fractional part in nanoseconds, which is
/// always below one billion.
pub assume_specification[ Duration::subsec_nanos ](d: &Duration) -> (nanos: u32)
    ensures
        nanos == duration_subsec_nanos(*d),
        nanos < 1_000_000_000,
;

/// `UNIX_EPOCH + d`: the point in time that lies `d` after the Unix epoch.
///
/// The addition panics where the system clock's type cannot hold the sum;
/// `requires` keeps to seconds that fit in 32 bits (up to the year 2106),
/// which the clock types hold. The equation is that of a clock type that
/// keeps single nanoseconds, as on every Unix target. A coarser one (Windows
/// counts in units of 100 ns) rounds the sum to its unit, and the equation
/// then holds of the rounded nanoseconds only.
#[verifier::external_body]
pub(crate) fn unix_epoch_plus(d: Duration) -> (t: SystemTime)
    requires
        duration_secs(d) <= 0xFFFF_FFFF,
    ensures
        epoch_offset(t) == Some((duration_secs(d), duration_subsec_nanos(d))),
{
    UNIX_EPOCH + d
}

/// `t.duration_since(UNIX_EPOCH)`: the time elapsed from the Unix epoch to
/// `t`, or an error when `t` lies before it.
#[verifier::external_body]
pub(crate) fn since_unix_epoch(t: SystemTime) -> (r: Result<Duration, SystemTimeError>)
    ensures
        match r {
            Ok(d) => epoch_offset(t) == Some((duration_secs(d), duration_subsec_nanos(d)))
                && duration_subsec_nanos(d) < 1_000_000_000,
            Err(_) => epoch_offset(t) is None,
        },
{
    t.duration_since(UNIX_EPOCH)
}

} // verus!
