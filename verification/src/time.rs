//! Points in time as plain numbers, and their text forms.
//!
//! Calendar arithmetic is left to the `chrono` crate. What it returns for a
//! given input is named here by spec functions without a body; the library's
//! contracts speak of those names.

use std::fmt::Write;

use vstd::prelude::*;
use vstd::string::StringExecFns;

verus! {

/// A point in time: whole seconds since the Unix epoch and the nanoseconds
/// past that second.
#[derive(Debug, Clone, Copy, PartialEq, Eq, Structural)]
pub struct UnixTime {
    pub secs: i64,
    pub nanos: u32,
}

impl UnixTime {
    /// Nanoseconds since the Unix epoch.
    pub open spec fn total_nanos(self) -> int {
        self.secs * 1_000_000_000 + self.nanos
    }
}

/// Whole seconds of a time given in milliseconds, rounded towards zero.
pub open spec fn whole_seconds(millis: i64) -> i64 {
    if millis >= 0 {
        (millis / 1000) as i64
    } else {
        (-((-millis) / 1000)) as i64
    }
}

/// Whole seconds of a time given in milliseconds, rounded towards zero.
pub fn millis_to_secs(millis: i64) -> (r: i64)
    ensures
        r == whole_seconds(millis),
{
    millis / 1000
}

/// The view of an optional text.
pub open spec fn text_of(t: Option<String>) -> Option<Seq<char>> {
    match t {
        Some(s) => Some(s@),
        None => None,
    }
}

/// The UTC second `secs` as `chrono` writes it with the strftime pattern
/// `pattern`; `None` where `chrono` cannot represent that second or cannot
/// write it with that pattern.
pub uninterp spec fn utc_text(secs: i64, pattern: Seq<char>) -> Option<Seq<char>>;

/// The date and time of the UTC second `secs`, written with the pattern `%c`
/// (such as `Thu Jan  1 00:00:00 1970`).
pub open spec fn date_time_text(secs: i64) -> Option<Seq<char>> {
    utc_text(secs, "%c"@)
}

/// The calendar date of the UTC second `secs`, written with the pattern
/// `%Y-%m-%d`.
pub open spec fn date_text(secs: i64) -> Option<Seq<char>> {
    utc_text(secs, "%Y-%m-%d"@)
}

/// The RFC 3339 text that `chrono` writes for the UTC time of `secs` seconds and
/// `nanos` nanoseconds; `None` where `chrono` cannot represent that time.
pub uninterp spec fn rfc3339_text(secs: i64, nanos: u32) -> Option<Seq<char>>;

/// The point in time that `chrono` reads from an RFC 3339 text, as seconds
/// since the epoch and nanoseconds past the second; `None` where `chrono`
/// rejects the text.
pub uninterp spec fn rfc3339_time(text: Seq<char>) -> Option<UnixTime>;

/// Writes the UTC second `secs` with the strftime pattern `pattern`.
///
/// Trusted: builds the time with `chrono::DateTime::from_timestamp` and writes
/// what `chrono::DateTime::format` gives for the pattern into a string. A
/// second out of range and a pattern that cannot be written both give `None`.
/// The contract only gives that result its name.
#[verifier::external_body]
pub(crate) fn format_utc(secs: i64, pattern: &str) -> (r: Option<String>)
    ensures
        text_of(r) == utc_text(secs, pattern@),
{
    let mut text = String::new();
    match chrono::DateTime::from_timestamp(secs, 0) {
        Some(t) => match write!(text, "{}", t.format(pattern)) {
            Ok(()) => Some(text),
            Err(_) => None,
        },
        None => None,
    }
}

/// Writes the date and time of the UTC second `secs`.
pub fn format_date_time(secs: i64) -> (r: Option<String>)
    ensures
        text_of(r) == date_time_text(secs),
{
    format_utc(secs, "%c")
}

/// Writes the calendar date of the UTC second `secs`.
pub fn format_date(secs: i64) -> (r: Option<String>)
    ensures
        text_of(r) == date_text(secs),
{
    format_utc(secs, "%Y-%m-%d")
}

/// Writes a UTC time as RFC 3339 text.
///
/// Trusted: builds the time with `chrono::DateTime::from_timestamp` and writes
/// it with `chrono::DateTime::to_rfc3339`. The contract only gives that result
/// its name.
#[verifier::external_body]
pub(crate) fn format_rfc3339(secs: i64, nanos: u32) -> (r: Option<String>)
    ensures
        text_of(r) == rfc3339_text(secs, nanos),
{
    match chrono::DateTime::from_timestamp(secs, nanos) {
        Some(t) => Some(t.to_rfc3339()),
        None => None,
    }
}

/// The text shown for a time: the written time, or `N/A` where there is none.
pub open spec fn label_of(t: Option<Seq<char>>) -> Seq<char> {
    match t {
        Some(s) => s,
        None => "N/A"@,
    }
}

/// The text shown for a time that may be missing.
pub fn label_or_na(t: Option<String>) -> (r: String)
    ensures
        r@ == label_of(text_of(t)),
{
    match t {
        Some(s) => s,
        None => String::from_str("N/A"),
    }
}

/// The text shown for the UTC second `secs`.
pub fn date_time_label(secs: i64) -> (r: String)
    ensures
        r@ == label_of(date_time_text(secs)),
{
    label_or_na(format_date_time(secs))
}

/// Reads an RFC 3339 text.
///
/// Trusted: parses with `chrono::DateTime::parse_from_rfc3339` and takes the
/// result apart with `timestamp` and `timestamp_subsec_nanos`. The contract
/// only gives that result its name.
#[verifier::external_body]
pub(crate) fn parse_rfc3339(text: &str) -> (r: Option<UnixTime>)
    ensures
        r == rfc3339_time(text@),
{
    match chrono::DateTime::parse_from_rfc3339(text) {
        Ok(t) => Some(UnixTime { secs: t.timestamp(), nanos: t.timestamp_subsec_nanos() }),
        Err(_) => None,
    }
}

} // verus!
