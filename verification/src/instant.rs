//! Instants of UTC time, counted in whole seconds since 1970-01-01T00:00:00Z.

use crate::decimal::{decimal_i64, decimal_value, parse_i64};
use chrono::{DateTime, Utc};
use vstd::prelude::*;

verus! {

/// The first second that chrono holds: midnight before the first day of the
/// year -262143.
pub const MIN_SECONDS: i64 = -8_334_601_228_800;

/// The last second that chrono holds: the last of the year 262142.
pub const MAX_SECONDS: i64 = 8_210_266_876_799;

/// The last second of the year 9999.
pub const LAST_COMMON_SECOND: i64 = 253_402_300_799;

/// Whether chrono has a `DateTime<Utc>` for this count of seconds since the
/// epoch.
pub open spec fn representable(secs: i64) -> bool {
    MIN_SECONDS <= secs <= MAX_SECONDS
}

/// Asks chrono for the instant `secs` seconds after the epoch and reads its
/// count of seconds back.
///
/// Calls `chrono::DateTime::<Utc>::from_timestamp`, then `DateTime::timestamp`
/// on what it made. The first takes the count apart into a day and a second
/// of the day, and has an instant exactly where the day lies in one of the
/// years -262143 to 262142: from `MIN_SECONDS` to `MAX_SECONDS`. The second
/// puts day and second together again, which gives the count back.
#[verifier::external_body]
fn utc_seconds(secs: i64, nanos: u32) -> (r: Option<i64>)
    requires
        nanos == 0,
    ensures
        r == (if MIN_SECONDS <= secs <= MAX_SECONDS {
            Some(secs)
        } else {
            None
        }),
{
    DateTime::<Utc>::from_timestamp(secs, nanos).map(|instant| instant.timestamp())
}

/// A count of milliseconds cut down to whole seconds, towards zero.
pub open spec fn whole_seconds(millis: int) -> int {
    if millis >= 0 {
        millis / 1000
    } else {
        -((-millis) / 1000)
    }
}

/// A count of milliseconds of 64 bits, cut down to whole seconds, is a count
/// of 64 bits. Where the count is not negative, or is a whole number of
/// seconds, it is the count divided by 1000 and rounded down.
pub proof fn lemma_whole_seconds()
    ensures
        forall|millis: i64| i64::MIN <= #[trigger] whole_seconds(millis as int) <= i64::MAX,
        forall|millis: i64|
            (millis >= 0 || millis % 1000 == 0) ==> #[trigger] whole_seconds(millis as int)
                == millis / 1000,
{
}

/// A count of milliseconds from the epoch to the end of the year 9999 falls in
/// an instant that chrono holds: the one as many whole seconds after the
/// epoch as the count divided by 1000 and rounded down.
pub proof fn lemma_common_era_millis(millis: i64)
    requires
        0 <= millis <= 1000 * LAST_COMMON_SECOND + 999,
    ensures
        Timestamp::of_millis(millis) == Some(Timestamp { seconds: (millis / 1000) as i64 }),
        0 <= millis / 1000 <= LAST_COMMON_SECOND,
        1000 * (millis / 1000) <= millis < 1000 * (millis / 1000) + 1000,
{
}

/// A text that is the decimal form of a count of milliseconds from the epoch
/// to the end of the year 9999 stands for an instant: the one as many whole
/// seconds after the epoch as the count divided by 1000 and rounded down.
pub proof fn lemma_common_era_text(text: Seq<char>, millis: int)
    requires
        decimal_value(text) == Some(millis),
        0 <= millis <= 1000 * LAST_COMMON_SECOND + 999,
    ensures
        Timestamp::of_text(text) == Some(Timestamp { seconds: (millis / 1000) as i64 }),
{
    lemma_common_era_millis(millis as i64);
}

/// An instant of UTC time with no part of a second.
#[derive(Clone, Copy, Debug, PartialEq, Eq, PartialOrd, Ord, Hash, Structural)]
pub struct Timestamp {
    /// Seconds since 1970-01-01T00:00:00Z, leap seconds not counted.
    pub seconds: i64,
}

impl Timestamp {
    /// Whether chrono can hold this instant.
    pub open spec fn wf(&self) -> bool {
        representable(self.seconds)
    }

    /// The instant that a count of milliseconds since the epoch falls in,
    /// where there is one.
    pub open spec fn of_millis(millis: i64) -> Option<Timestamp> {
        if representable(whole_seconds(millis as int) as i64) {
            Some(Timestamp { seconds: whole_seconds(millis as int) as i64 })
        } else {
            None
        }
    }

    /// The instant that a decimal count of milliseconds falls in, where the
    /// text is such a count and there is such an instant.
    pub open spec fn of_text(text: Seq<char>) -> Option<Timestamp> {
        match decimal_i64(text) {
            Some(millis) => Timestamp::of_millis(millis),
            None => None,
        }
    }

    /// The instant `secs` seconds after the epoch, or `None` where chrono has
    /// no such instant: before `MIN_SECONDS` or after `MAX_SECONDS`.
    pub fn from_seconds(secs: i64) -> (r: Option<Timestamp>)
        ensures
            r == (if representable(secs) {
                Some(Timestamp { seconds: secs })
            } else {
                None
            }),
            r matches Some(t) ==> t.wf(),
    {
        match utc_seconds(secs, 0) {
            Some(seconds) => Some(Timestamp { seconds }),
            None => None,
        }
    }

    /// The instant that `millis` milliseconds after the epoch falls in: the
    /// part of a second is dropped, towards zero.
    pub fn from_millis(millis: i64) -> (r: Option<Timestamp>)
        ensures
            r == Timestamp::of_millis(millis),
            r matches Some(t) ==> t.wf(),
    {
        Timestamp::from_seconds(millis / 1000)
    }
}

/// Reads a decimal count of milliseconds since the epoch and gives the
/// instant it falls in.
///
/// `None` where the text is no 64-bit decimal integer, or chrono has no instant
/// that far from the epoch.
pub fn time_from_string(time_string: &str) -> (r: Option<Timestamp>)
    ensures
        r == Timestamp::of_text(time_string@),
        r matches Some(t) ==> t.wf(),
{
    match parse_i64(time_string) {
        Some(millis) => Timestamp::from_millis(millis),
        None => None,
    }
}

} // verus!
