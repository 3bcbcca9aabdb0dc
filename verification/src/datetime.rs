//! Dates as text: reading them and writing them, both left to `chrono`.

use crate::timestamp::{unix_time_nanos, Timestamp};
use vstd::prelude::*;

verus! {

/// What `chrono` reads out of `text` under the `strftime` pattern `format`: the
/// date and time of day that the text names, taken as UTC, as whole seconds
/// since 1970-01-01T00:00:00Z and the nanoseconds beyond them; `None` where
/// `chrono` refuses the text or the pattern.
pub uninterp spec fn chrono_naive_utc(text: Seq<char>, format: Seq<char>) -> Option<(i64, u32)>;

/// What `chrono` writes for the instant `nanos` nanoseconds after the
/// `seconds`-th second since 1970-01-01T00:00:00Z, as RFC 3339 text in UTC;
/// `None` where `chrono` cannot hold that instant.
pub uninterp spec fn chrono_rfc3339(seconds: i64, nanos: u32) -> Option<Seq<char>>;

/// Calls `chrono::NaiveDateTime::parse_from_str` and reads the result as UTC
/// with `and_utc`, `timestamp` and `timestamp_subsec_nanos`.
///
/// Nothing is proved of it. The contract claims only that the outcome depends
/// on the two texts alone.
#[verifier::external_body]
fn read_naive_utc(text: &str, format: &str) -> (parts: Option<(i64, u32)>)
    ensures
        parts == chrono_naive_utc(text@, format@),
{
    let read = chrono::NaiveDateTime::parse_from_str(text, format).ok()?.and_utc();
    Some((read.timestamp(), read.timestamp_subsec_nanos()))
}

/// Calls `chrono::DateTime::from_timestamp` and writes the result with
/// `to_rfc3339`.
///
/// Nothing is proved of it. The contract claims only that the outcome depends
/// on the two numbers alone.
#[verifier::external_body]
fn write_rfc3339(seconds: i64, nanos: u32) -> (text: Option<String>)
    ensures
        text is Some == chrono_rfc3339(seconds, nanos) is Some,
        text matches Some(written) ==> chrono_rfc3339(seconds, nanos) == Some(written@),
{
    Some(chrono::DateTime::from_timestamp(seconds, nanos)?.to_rfc3339())
}

/// The instant that `text` names under `format`, if it names one.
pub open spec fn date_of(text: Seq<char>, format: Seq<char>) -> Option<Timestamp> {
    match chrono_naive_utc(text, format) {
        Some((seconds, nanos)) => Some(
            Timestamp { unix_nanos: unix_time_nanos(seconds as int, nanos as int) as i128 },
        ),
        None => None,
    }
}

/// The instant that `text` names in the form `YYYY-MM-DD HH:MM:SS`, which
/// carries no time zone and is read as UTC.
pub open spec fn canonical_date(text: Seq<char>) -> Option<Timestamp> {
    date_of(text, "%Y-%m-%d %H:%M:%S"@)
}

/// The instant that `text` names in the form `YYYY-MM-DDTHH:MM:SS`, read as UTC.
pub open spec fn iso_date(text: Seq<char>) -> Option<Timestamp> {
    date_of(text, "%Y-%m-%dT%H:%M:%S"@)
}

/// Reads a date and time of day written after the `strftime` pattern `format`,
/// as UTC.
pub fn parse_date_as(text: &str, format: &str) -> (date: Option<Timestamp>)
    ensures
        date == date_of(text@, format@),
{
    match read_naive_utc(text, format) {
        Some((seconds, nanos)) => Some(Timestamp::from_unix_time(seconds, nanos)),
        None => None,
    }
}

/// Reads a date written as `YYYY-MM-DD HH:MM:SS`.
pub fn parse_canonical_date(text: &str) -> (date: Option<Timestamp>)
    ensures
        date == canonical_date(text@),
{
    parse_date_as(text, "%Y-%m-%d %H:%M:%S")
}

/// Reads a date written as `YYYY-MM-DDTHH:MM:SS`; `None` where `date` is not
/// written so.
pub fn try_parse_date(date: &str) -> (parsed: Option<Timestamp>)
    ensures
        parsed == iso_date(date@),
{
    if parse_date_as(date, "%Y-%m-%dT%H:%M:%S").is_some() {
        Some(parse_date(date))
    } else {
        None
    }
}

/// Reads a date that is known to be written as `YYYY-MM-DDTHH:MM:SS`.
pub fn parse_date(date: &str) -> (parsed: Timestamp)
    requires
        iso_date(date@) is Some,
    ensures
        iso_date(date@) == Some(parsed),
{
    match parse_date_as(date, "%Y-%m-%dT%H:%M:%S") {
        Some(parsed) => parsed,
        None => vstd::pervasive::unreached(),
    }
}

impl Timestamp {
    /// The instant as RFC 3339 text in UTC, where it can be written so.
    pub open spec fn rfc3339(self) -> Option<Seq<char>> {
        if i64::MIN * 1_000_000_000 <= self@ < (i64::MAX + 1) * 1_000_000_000 {
            chrono_rfc3339((self@ / 1_000_000_000) as i64, (self@ % 1_000_000_000) as u32)
        } else {
            None
        }
    }

    /// Writes the instant as RFC 3339 text in UTC, such as
    /// `2021-08-13T18:04:35+00:00`; `None` where the instant lies beyond the
    /// years that can be written.
    pub fn to_rfc3339(&self) -> (text: Option<String>)
        ensures
            text is Some == self.rfc3339() is Some,
            text matches Some(written) ==> self.rfc3339() == Some(written@),
    {
        match self.unix_time() {
            Some((seconds, nanos)) => write_rfc3339(seconds, nanos),
            None => None,
        }
    }
}

} // verus!
