//! A 64-bit fixed-point timestamp: 32 bits of whole seconds above 32 bits of
//! binary fraction of a second, ordered as the unsigned integer it is stored
//! in. It serves as the physical-time part of a hybrid logical clock, which
//! may overwrite low fraction bits with its logical counter; nothing here
//! depends on how many.
//!
//! Every executable function carries a contract that Verus proves, stated
//! over the timestamp as a natural number (`NTP64::view`) and, for the two
//! textual forms, over sequences of characters.
//!
//! - [`timestamp`]: the value, its seconds and fraction, and the conversions
//!   from and to `Duration` and `SystemTime`;
//! - [`order`]: comparison, which is that of the raw values;
//! - [`arith`]: wrapping sums and differences;
//! - [`decimal`]: the lossless decimal form, written and read here;
//! - [`calendar`]: the lossy RFC 3339 form, written and read by `humantime`;
//! - [`clock`]: what is taken on trust from `std::time`;
//! - [`error`]: the one failure, a text that is not a timestamp.
//!
//! No function of this library panics on an input that its `requires` admits.
//! Two of them rule out by `requires` what no timestamp can hold:
//! `NTP64::from` and `NTP64::parse_rfc3339` take no more seconds than 32 bits
//! hold. `NTP64::try_parse_rfc3339` takes any text.
//!
//! What the calendar form promises rests on the contracts given to
//! `humantime` and `std::time` in [`calendar`] and [`clock`]. They are those
//! of a target with 64-bit pointers whose system clock keeps nanoseconds.

pub mod arith;
pub mod calendar;
pub mod clock;
pub mod decimal;
pub mod error;
pub mod order;
pub mod timestamp;

pub use error::ParseNTP64Error;
pub use timestamp::NTP64;
