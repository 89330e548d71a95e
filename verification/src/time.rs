//! Points in time as Unix timestamps in whole seconds, and the calendar
//! operations of `chrono` that the scheduling logic relies on.
//!
//! The library's timestamps cover `chrono`'s range: the years -262143 to
//! 262142 (UTC), proleptic Gregorian.

use vstd::prelude::*;
use chrono::Datelike;

verus! {

/// -262143-01-01T00:00:00Z, the first second `chrono` represents.
pub const MIN_TIMESTAMP: i64 = -8334601315200;

/// +262142-12-31T23:59:59Z, the last whole second `chrono` represents.
pub const MAX_TIMESTAMP: i64 = 8210266876799;

/// The first year of `chrono`'s calendar.
pub const MIN_YEAR: i32 = -262143;

/// The last year of `chrono`'s calendar.
pub const MAX_YEAR: i32 = 262142;

/// Seconds in a day.
pub const SECONDS_PER_DAY: i64 = 86400;

/// Whether a timestamp is one that `chrono::DateTime<Utc>` can hold.
pub open spec fn valid_timestamp(ts: int) -> bool {
    MIN_TIMESTAMP <= ts <= MAX_TIMESTAMP
}

/// A point in time (UTC) as a date-time column or the clock gives it: whole
/// seconds since the epoch and the nanoseconds within the second.
#[derive(Clone, Copy, Debug, PartialEq, Eq, Structural)]
pub struct UtcTime {
    pub secs: i64,
    pub nanos: u32,
}

/// Whether a point in time is one that `chrono::DateTime<Utc>` holds.
pub open spec fn valid_time(t: UtcTime) -> bool {
    valid_timestamp(t.secs as int) && t.nanos < 1_000_000_000
}

/// Whether `a` is not later than `b`.
pub open spec fn time_le(a: UtcTime, b: UtcTime) -> bool {
    a.secs < b.secs || (a.secs == b.secs && a.nanos <= b.nanos)
}

/// The whole second `secs`.
pub open spec fn at_second(secs: i64) -> UtcTime {
    UtcTime { secs, nanos: 0 }
}

/// Whether `a` is not later than `b`.
pub fn not_later(a: UtcTime, b: UtcTime) -> (r: bool)
    ensures
        r == time_le(a, b),
{
    a.secs < b.secs || (a.secs == b.secs && a.nanos <= b.nanos)
}

/// Whether two optional points in time are the same.
pub fn same_time(a: Option<UtcTime>, b: Option<UtcTime>) -> (r: bool)
    ensures
        r == (a == b),
{
    match (a, b) {
        (Some(x), Some(y)) => x.secs == y.secs && x.nanos == y.nanos,
        (None, None) => true,
        _ => false,
    }
}

/// The UTC calendar year and month of a timestamp, as `chrono` computes them.
pub uninterp spec fn chrono_year_month(ts: i64) -> (i32, u32);

/// The number of days since 0001-01-01 (counting that day as day 1) of a
/// calendar date, as `chrono::NaiveDate::from_ymd_opt` followed by
/// `num_days_from_ce` computes it; `None` for a date that does not exist.
pub uninterp spec fn chrono_days_from_ce(year: i32, month: u32, day: u32) -> Option<i32>;

/// The timestamp of midnight (UTC) at the start of a calendar date, as
/// `chrono` computes it; `None` for a date that does not exist.
pub uninterp spec fn chrono_midnight(year: i32, month: u32, day: u32) -> Option<i64>;

/// The timestamp `months` calendar months after `ts`, keeping the time of
/// day and moving to the month's last day when the day does not exist, as
/// `chrono::NaiveDate::checked_add_months` computes it; `None` out of range.
pub uninterp spec fn chrono_add_months(ts: i64, months: u32) -> Option<i64>;

/// The timestamp `days` days after `ts`, keeping the time of day, as
/// `chrono::NaiveDate::checked_add_signed` computes it: `None` when that
/// lies outside `chrono`'s range.
pub open spec fn chrono_add_days(ts: i64, days: i32) -> Option<i64> {
    if valid_timestamp(ts + days * SECONDS_PER_DAY) {
        Some((ts + days * SECONDS_PER_DAY) as i64)
    } else {
        None
    }
}

/// Calls `chrono::DateTime::from_timestamp` and reads `year()` and
/// `month()`. The contract claims that the result is `chrono`'s year and
/// month of `ts`, that the month lies in 1..=12 (as `month()` documents) and
/// that the year lies in `chrono`'s range of years.
#[verifier::external_body]
pub(crate) fn year_month_of(ts: i64) -> (r: (i32, u32))
    requires
        valid_timestamp(ts as int),
    ensures
        r == chrono_year_month(ts),
        1 <= r.1 <= 12,
        MIN_YEAR <= r.0 <= MAX_YEAR,
{
    let dt = chrono::DateTime::from_timestamp(ts, 0).unwrap();
    (dt.year(), dt.month())
}

/// Calls `chrono::NaiveDate::from_ymd_opt` and `num_days_from_ce`. The
/// contract claims the result is `chrono`'s, and that it exists for a day
/// that exists in every month (1..=28) of a month 1..=12 of a year in
/// `chrono`'s range of years, and does not exist for a year outside it.
#[verifier::external_body]
pub(crate) fn days_from_ce(year: i32, month: u32, day: u32) -> (r: Option<i32>)
    ensures
        r == chrono_days_from_ce(year, month, day),
        MIN_YEAR <= year <= MAX_YEAR && 1 <= month <= 12 && 1 <= day <= 28 ==> r is Some,
        !(MIN_YEAR <= year <= MAX_YEAR) ==> r is None,
{
    chrono::NaiveDate::from_ymd_opt(year, month, day).map(|d| d.num_days_from_ce())
}

/// Calls `chrono::NaiveDate::from_ymd_opt`, then `and_hms_opt(0, 0, 0)`,
/// `and_utc` and `timestamp`. The contract claims the result is `chrono`'s
/// and that any timestamp it gives is one `chrono` can hold (the midnight of
/// a date `chrono` represents).
#[verifier::external_body]
pub(crate) fn midnight_of(year: i32, month: u32, day: u32) -> (r: Option<i64>)
    ensures
        r == chrono_midnight(year, month, day),
        r matches Some(t) ==> valid_timestamp(t as int),
{
    chrono::NaiveDate::from_ymd_opt(year, month, day)
        .and_then(|d| d.and_hms_opt(0, 0, 0))
        .map(|d| d.and_utc().timestamp())
}

/// Calls `chrono::NaiveDate::checked_add_months` on the date of `ts` and puts
/// back the time of day of `ts`. The contract claims that the result is
/// `chrono`'s for these arguments, and that a result is a timestamp `chrono`
/// can hold (a date it represents, at a time of day).
#[verifier::external_body]
pub(crate) fn add_months(ts: i64, months: u32) -> (r: Option<i64>)
    requires
        valid_timestamp(ts as int),
    ensures
        r == chrono_add_months(ts, months),
        r matches Some(t) ==> valid_timestamp(t as int),
{
    let dt = chrono::DateTime::from_timestamp(ts, 0).unwrap();
    dt.date_naive()
        .checked_add_months(chrono::Months::new(months))
        .map(|d| d.and_time(dt.time()).and_utc().timestamp())
}

/// Calls `chrono::NaiveDate::checked_add_signed` with `Duration::days` on
/// the date of `ts` and puts back the time of day of `ts`. The contract
/// claims what the source shows: the date moves by `days` days, so the
/// timestamp moves by that many times 86400 seconds, and the result is
/// `None` exactly when the new date lies outside `chrono`'s range.
#[verifier::external_body]
pub(crate) fn add_days(ts: i64, days: i32) -> (r: Option<i64>)
    requires
        valid_timestamp(ts as int),
    ensures
        r == chrono_add_days(ts, days),
{
    let dt = chrono::DateTime::from_timestamp(ts, 0).unwrap();
    dt.date_naive()
        .checked_add_signed(chrono::Duration::days(days as i64))
        .map(|d| d.and_time(dt.time()).and_utc().timestamp())
}

} // verus!
