//! Points in time, held as seconds and nanoseconds since the Unix epoch and
//! written as RFC 3339 asks.

use chrono::{DateTime, Utc};
use vstd::prelude::*;

verus! {

/// A point in time, in UTC.
#[derive(Clone, Copy, Debug, PartialEq, Eq, Structural)]
pub struct Timestamp {
    /// Seconds since 1970-01-01T00:00:00Z, leap seconds not counted.
    pub secs: i64,
    /// Nanoseconds since the last full second. During a leap second this is
    /// a billion or more.
    pub nanos: u32,
}

/// The text that `DateTime::to_rfc3339` of chrono writes for the point in
/// time with these seconds and nanoseconds, or `None` where chrono has no
/// `DateTime` for them.
pub uninterp spec fn rfc3339_text(secs: i64, nanos: u32) -> Option<Seq<char>>;

/// The point in time that `DateTime::parse_from_rfc3339` of chrono reads
/// from a text, as seconds and nanoseconds, or `None` where it reads none.
pub uninterp spec fn rfc3339_instant(text: Seq<char>) -> Option<(i64, u32)>;

impl Timestamp {
    /// The point in time lies in the years 0000 to 9999, the ones that
    /// RFC 3339 can write, and its nanoseconds are those of a second or of a
    /// leap second at the end of a minute.
    pub open spec fn in_rfc3339_years(self) -> bool {
        &&& -62_167_219_200 <= self.secs <= 253_402_300_799
        &&& (self.nanos < 1_000_000_000 || (self.nanos < 2_000_000_000 && self.secs % 60 == 59))
    }
}

/// `Utc::now` of chrono, as the seconds and nanoseconds that
/// `DateTime::timestamp` and `DateTime::timestamp_subsec_nanos` give. The
/// clock decides the value. chrono takes it from a clock that stands at or
/// after 1970 and stops the program where the clock stands before that; it
/// never reports a leap second, and it can write every value that it hands
/// out.
#[verifier::external_body]
pub(crate) fn utc_now() -> (now: Timestamp)
    ensures
        0 <= now.secs,
        now.nanos < 1_000_000_000,
        rfc3339_text(now.secs, now.nanos) is Some,
{
    let now = Utc::now();
    Timestamp { secs: now.timestamp(), nanos: now.timestamp_subsec_nanos() }
}

/// `DateTime::to_rfc3339` of chrono, on the `DateTime` that
/// `DateTime::from_timestamp` makes of the seconds and nanoseconds. For a
/// point in time in the years 0000 to 9999 there is a text, and
/// `DateTime::parse_from_rfc3339` reads the same point in time from it.
#[verifier::external_body]
pub(crate) fn instant_to_text(instant: Timestamp) -> (text: Option<String>)
    ensures
        match text {
            Some(text) => rfc3339_text(instant.secs, instant.nanos) == Some(text@),
            None => rfc3339_text(instant.secs, instant.nanos) is None,
        },
        instant.in_rfc3339_years() ==> (text matches Some(text) && rfc3339_instant(text@)
            == Some((instant.secs, instant.nanos))),
{
    DateTime::from_timestamp(instant.secs, instant.nanos).map(|time| time.to_rfc3339())
}

/// `DateTime::parse_from_rfc3339` of chrono, the result taken to UTC and
/// handed out as seconds and nanoseconds. What it accepts is not spelled out
/// here: the result is `rfc3339_instant` of the text.
#[verifier::external_body]
pub(crate) fn instant_from_text(text: &str) -> (instant: Option<Timestamp>)
    ensures
        match instant {
            Some(instant) => rfc3339_instant(text@) == Some((instant.secs, instant.nanos)),
            None => rfc3339_instant(text@) is None,
        },
{
    DateTime::parse_from_rfc3339(text).ok().map(|time| time.with_timezone(&Utc)).map(
        |time| Timestamp { secs: time.timestamp(), nanos: time.timestamp_subsec_nanos() },
    )
}

} // verus!
