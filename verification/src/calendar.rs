//! The calendar form of a timestamp: `YYYY-MM-DDThh:mm:ss.fffffffffZ`.
//!
//! The form reads the timestamp as time elapsed since 1970-01-01T00:00:00Z and
//! shows it to the nanosecond. It loses precision both ways: a fraction unit
//! is finer than a nanosecond, and reading goes through `NTP64::from`, which
//! rounds down and adds one unit. A timestamp written and read back in this
//! form may therefore differ from the one that was written; the decimal form
//! is the one that gives every value back.
//!
//! The calendar itself (leap years, month lengths) is the work of the
//! `humantime` crate. The two calls into it stand behind the trusted items at
//! the head of this file; everything after them is proved.

use crate::clock::{duration_secs, duration_subsec_nanos, epoch_offset, since_unix_epoch};
use crate::decimal::{decimal_text, is_digit, lemma_decimal_text_value};
use crate::error::ParseNTP64Error;
use crate::timestamp::{fraction_of, fraction_to_nanos, seconds_of, timestamp_of, NTP64, MAX_NB_SEC};
use std::time::{Duration, SystemTime};
use vstd::prelude::*;
use vstd::string::*;

verus! {

/// `humantime::TimestampError`, the reason for which `humantime` refuses a text.
#[verifier::external_type_specification]
#[verifier::external_body]
pub struct ExTimestampError(humantime::TimestampError);

/// The instant that `humantime::parse_rfc3339` reads from `text`, as whole
/// seconds and nanoseconds since 1970-01-01T00:00:00Z, or `None` where it
/// refuses the text.
///
/// The name stands for the reading on a target with 64-bit pointers, where
/// the last instant read is 9999-12-31T23:59:59Z. (On a 32-bit Unix target
/// `humantime` stops at 2038-01-19T03:14:07Z.)
pub uninterp spec fn rfc3339_parse(text: Seq<char>) -> Option<(u64, u32)>;

/// The text in which the instant `secs` seconds and `nanos` nanoseconds after
/// 1970-01-01T00:00:00Z is written in RFC 3339 form with nine fractional
/// digits: what `humantime::format_rfc3339_nanos` displays for that instant.
pub uninterp spec fn rfc3339_nanos_text(secs: u64, nanos: u32) -> Seq<char>;

/// Whether `text` has the shape `dddd-dd-ddTdd:dd:dd.dddddddddZ`, each `d` a
/// decimal digit.
pub open spec fn is_calendar_shape(text: Seq<char>) -> bool {
    &&& text.len() == 30
    &&& text[4] == '-'
    &&& text[7] == '-'
    &&& text[10] == 'T'
    &&& text[13] == ':'
    &&& text[16] == ':'
    &&& text[19] == '.'
    &&& text[29] == 'Z'
    &&& forall|i: int|
        0 <= i < 29 && i != 4 && i != 7 && i != 10 && i != 13 && i != 16 && i != 19 ==> is_digit(
            #[trigger] text[i],
        )
}

/// The cause given when `text` is refused as a calendar timestamp.
pub open spec fn unreadable_calendar_cause(text: Seq<char>) -> Seq<char> {
    "Failed to parse '"@ + text + "' : invalid RFC3339 format"@
}

/// `humantime::parse_rfc3339`: reads an instant from a text such as
/// `2018-02-14T00:28:07.133Z`.
///
/// The function computes whole seconds and nanoseconds from the text alone
/// and returns the point in time that lies so far after the Unix epoch, or
/// one of its errors. It has no panicking path.
#[verifier::external_body]
pub(crate) fn humantime_parse_rfc3339(s: &str) -> (r: Result<SystemTime, humantime::TimestampError>)
    ensures
        match r {
            Ok(t) => epoch_offset(t) == rfc3339_parse(s@),
            Err(_) => rfc3339_parse(s@) is None,
        },
{
    humantime::parse_rfc3339(s)
}

/// `humantime::format_rfc3339_nanos`, displayed: writes an instant in RFC 3339
/// form with nine fractional digits.
///
/// The display panics for an instant before the epoch and fails from year
/// 10000 on (253402300800 seconds), which `requires` rules out. It fills the
/// digits of the 30-byte pattern `0000-00-00T00:00:00.000000000Z` from the
/// instant's offset from the epoch and from nothing else.
#[verifier::external_body]
pub(crate) fn humantime_format_rfc3339_nanos(t: SystemTime) -> (text: String)
    requires
        epoch_offset(t) matches Some((secs, _)) && secs < 253_402_300_800,
    ensures
        text@ == rfc3339_nanos_text(epoch_offset(t).unwrap().0, epoch_offset(t).unwrap().1),
        is_calendar_shape(text@),
{
    humantime::format_rfc3339_nanos(t).to_string()
}

/// Reads `s` as a calendar timestamp, as far as the instant it names: the
/// time elapsed from 1970-01-01T00:00:00Z to that instant, or `None` where
/// the text is refused.
pub fn read_rfc3339(s: &str) -> (reading: Option<Duration>)
    ensures
        match rfc3339_parse(s@) {
            Some((secs, nanos)) => reading matches Some(d) && duration_secs(d) == secs
                && duration_subsec_nanos(d) == nanos && nanos < 1_000_000_000,
            None => reading is None,
        },
{
    match humantime_parse_rfc3339(s) {
        Ok(time) => match since_unix_epoch(time) {
            Ok(elapsed) => Some(elapsed),
            Err(_) => None,
        },
        Err(_) => None,
    }
}

impl NTP64 {
    /// Writes the timestamp in calendar form, to the nanosecond.
    ///
    /// The text is that of the instant `as_secs()` seconds and
    /// `subsec_nanos()` nanoseconds after 1970-01-01T00:00:00Z. It always has
    /// the calendar shape, and so is never the decimal form of the same
    /// timestamp.
    pub fn to_string_rfc3339_lossy(&self) -> (text: String)
        ensures
            text@ == rfc3339_nanos_text(
                seconds_of(self@) as u64,
                fraction_to_nanos(fraction_of(self@)) as u32,
            ),
            is_calendar_shape(text@),
            text@ != decimal_text(self@),
    {
        let text = humantime_format_rfc3339_nanos(self.to_system_time());
        proof {
            lemma_renderings_differ(*self, text@);
        }
        text
    }

    /// Writes the timestamp as a format string would: in decimal form by
    /// default, in calendar form when the alternate form is asked for.
    pub fn fmt(&self, alternate: bool) -> (text: String)
        ensures
            alternate ==> text@ == rfc3339_nanos_text(
                seconds_of(self@) as u64,
                fraction_to_nanos(fraction_of(self@)) as u32,
            ) && is_calendar_shape(text@),
            !alternate ==> text@ == decimal_text(self@),
    {
        if alternate {
            self.to_string_rfc3339_lossy()
        } else {
            self.to_string()
        }
    }

    /// Makes a timestamp of what was read from the calendar text `s`.
    ///
    /// An instant becomes the timestamp of its elapsed time, as `NTP64::from`
    /// makes it; it must lie within `MAX_NB_SEC` seconds. No instant becomes
    /// an error whose cause quotes `s`.
    pub fn from_reading(s: &str, reading: Option<Duration>) -> (r: Result<NTP64, ParseNTP64Error>)
        requires
            reading matches Some(d) ==> duration_secs(d) <= MAX_NB_SEC,
        ensures
            match reading {
                Some(d) => r matches Ok(t) && t@ == timestamp_of(
                    duration_secs(d) as nat,
                    duration_subsec_nanos(d) as nat,
                ),
                None => r matches Err(e) && e@ == unreadable_calendar_cause(s@),
            },
    {
        match reading {
            Some(elapsed) => Ok(NTP64::from(elapsed)),
            None => {
                let mut cause = "Failed to parse '".to_owned();
                cause.append(s);
                cause.append("' : invalid RFC3339 format");
                assert(cause@ =~= unreadable_calendar_cause(s@));
                Err(ParseNTP64Error { cause })
            },
        }
    }

    /// Reads a timestamp from its calendar form.
    ///
    /// A text that `humantime` reads as an instant gives the timestamp of that
    /// instant's offset from 1970-01-01T00:00:00Z; any other text is refused
    /// with a cause that quotes it. The instant must lie within `MAX_NB_SEC`
    /// seconds of the reference (up to the year 2106): `try_parse_rfc3339`
    /// finds out whether it does.
    pub fn parse_rfc3339(s: &str) -> (r: Result<NTP64, ParseNTP64Error>)
        requires
            rfc3339_parse(s@) matches Some((secs, _)) ==> secs <= MAX_NB_SEC,
        ensures
            match rfc3339_parse(s@) {
                Some((secs, nanos)) => r matches Ok(t) && t@ == timestamp_of(
                    secs as nat,
                    nanos as nat,
                ),
                None => r matches Err(e) && e@ == unreadable_calendar_cause(s@),
            },
    {
        NTP64::from_reading(s, read_rfc3339(s))
    }

    /// Reads a timestamp from its calendar form, whatever the text: `None`
    /// where the text names an instant more than `MAX_NB_SEC` seconds after
    /// the reference, which no timestamp holds, and otherwise what
    /// `parse_rfc3339` returns.
    pub fn try_parse_rfc3339(s: &str) -> (r: Option<Result<NTP64, ParseNTP64Error>>)
        ensures
            match rfc3339_parse(s@) {
                Some((secs, nanos)) => if secs <= MAX_NB_SEC {
                    r matches Some(Ok(t)) && t@ == timestamp_of(secs as nat, nanos as nat)
                } else {
                    r is None
                },
                None => r matches Some(Err(e)) && e@ == unreadable_calendar_cause(s@),
            },
    {
        let in_range = match read_rfc3339(s) {
            Some(elapsed) => elapsed.as_secs() <= MAX_NB_SEC,
            None => true,
        };
        if in_range {
            Some(NTP64::parse_rfc3339(s))
        } else {
            None
        }
    }
}

/// The two forms of one timestamp never coincide: a text of the calendar
/// shape is not the decimal text of any value.
pub proof fn lemma_renderings_differ(t: NTP64, calendar: Seq<char>)
    requires
        is_calendar_shape(calendar),
    ensures
        decimal_text(t@) != calendar,
{
    lemma_decimal_text_value(t@);
    if decimal_text(t@) == calendar {
        assert(is_digit(calendar[4]));
    }
}

} // verus!
