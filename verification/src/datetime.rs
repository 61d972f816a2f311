//! Points in time (UTC), held as seconds since the UNIX epoch and the
//! nanoseconds within that second, as chrono reports them.

use vstd::prelude::*;

verus! {

/// A point in time in UTC: `secs` non-leap seconds since 1970-01-01 00:00:00
/// UTC and `nanos` nanoseconds past that second (at least one billion only
/// during a leap second).
#[derive(Debug, Clone, Copy, PartialEq, Eq, Structural)]
pub struct UtcDateTime {
    pub secs: i64,
    pub nanos: u32,
}

/// What chrono's `str::parse::<DateTime<Utc>>` makes of a string: `None` when
/// it refuses the string, else the timestamp and sub-second nanoseconds of
/// the parsed point in time.
pub uninterp spec fn chrono_utc_from_str(s: Seq<char>) -> Option<UtcDateTime>;

/// Whether chrono's calendar holds the day of a UNIX timestamp: the number
/// of days from the common era to that day fits in an `i32` and lies within
/// the years that `NaiveDate` can represent.
pub uninterp spec fn chrono_day_in_range(secs: i64) -> bool;

/// Whether chrono's `DateTime::from_timestamp` accepts the given seconds and
/// nanoseconds: the day lies in chrono's range, the nanoseconds are below two
/// billion, and at least one billion (a leap second) only in the last second
/// of a minute.
pub open spec fn chrono_accepts_timestamp(secs: i64, nsecs: u32) -> bool {
    &&& chrono_day_in_range(secs)
    &&& nsecs < 2_000_000_000
    &&& nsecs >= 1_000_000_000 ==> secs % 86_400 % 60 == 59
}

/// Parses a date and time with chrono (`s.parse::<DateTime<Utc>>()`, a
/// relaxed RFC 3339 form).
///
/// Trusted: the result is named by `chrono_utc_from_str`; chrono's parser is
/// a function of the string alone.
#[verifier::external_body]
pub(crate) fn parse_utc_datetime(s: &str) -> (res: Option<UtcDateTime>)
    ensures
        res == chrono_utc_from_str(s@),
{
    match s.parse::<chrono::DateTime<chrono::Utc>>() {
        Ok(d) => Some(UtcDateTime { secs: d.timestamp(), nanos: d.timestamp_subsec_nanos() }),
        Err(_) => None,
    }
}

/// Builds a point in time from a UNIX timestamp with chrono's
/// `DateTime::from_timestamp(secs, nsecs)`.
///
/// Trusted: chrono returns `None` exactly when the day lies outside its
/// calendar (named by `chrono_day_in_range`) or the nanoseconds are invalid
/// (at least two billion, or at least one billion outside the last second of
/// a minute, as `NaiveTime::from_num_seconds_from_midnight_opt` checks on the
/// second of the day); otherwise the resulting date and time has
/// `timestamp() == secs` and `timestamp_subsec_nanos() == nsecs`, which
/// chrono documents as a round trip.
#[verifier::external_body]
pub(crate) fn utc_from_timestamp(secs: i64, nsecs: u32) -> (res: Option<UtcDateTime>)
    ensures
        res is Some <==> (chrono_day_in_range(secs) && nsecs < 2_000_000_000 && (nsecs
            >= 1_000_000_000 ==> secs % 86_400 % 60 == 59)),
        res matches Some(d) ==> d.secs == secs && d.nanos == nsecs,
{
    match chrono::DateTime::from_timestamp(secs, nsecs) {
        Some(d) => Some(UtcDateTime { secs: d.timestamp(), nanos: d.timestamp_subsec_nanos() }),
        None => None,
    }
}

} // verus!
