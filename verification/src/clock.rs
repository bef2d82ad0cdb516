//! Readings of the system clock and of the local calendar.
//!
//! Everything here asks `chrono` and hands back plain integers. What the
//! clock and the machine's time zone answer is not known in advance, so the
//! functions that use these readings state what holds for every answer: of
//! the clock that it reads no time before 1970, of a local day and a local
//! time of day how far a time zone can move them from UTC.
//! `chrono` panics where the system clock is set before 1970, and where the
//! time zone data of the machine gives it no offset to use.

use crate::time::{TimeOfDay, Timestamp};
use chrono::{Datelike, Timelike};
use vstd::prelude::*;

verus! {

/// A calendar day, as `chrono` numbers the days of the proleptic Gregorian
/// calendar: day 1 is 0001-01-01.
pub type Day = i64;

/// `chrono::Utc::now`, as the seconds since the epoch and the nanoseconds
/// past the last whole second. What the clock reads is not known. `chrono`
/// takes the time that has passed since 1970, and panics where the clock
/// stands before that, so that the seconds are not negative and the
/// nanoseconds stay below one second: that much is claimed.
#[verifier::external_body]
fn utc_now_parts() -> (parts: (i64, u32))
    ensures
        parts.0 >= 0,
        parts.1 < 1_000_000_000,
{
    let now = chrono::Utc::now();
    (now.timestamp(), now.timestamp_subsec_nanos())
}

/// The calendar day in UTC on which the instant `nanos` nanoseconds after
/// the epoch falls: so many whole days of 86 400 seconds after
/// 1970-01-01, which is day 719 163.
pub open spec fn utc_day(nanos: int) -> int {
    (nanos / 1_000_000_000) / 86_400 + 719_163
}

/// `chrono::DateTime::with_timezone` into `chrono::Local`, then
/// `date_naive`: the local calendar day on which the instant `nanos`
/// nanoseconds after the epoch falls, as `num_days_from_ce` counts it.
/// Which day that is depends on the machine's time zone. `chrono` adds an
/// offset of less than 24 hours to the time in UTC, so that the day is the
/// day in UTC, the day before it or the day after it: that much is claimed.
#[verifier::external_body]
fn local_day_parts(nanos: i64) -> (day: i32)
    ensures
        utc_day(nanos as int) - 1 <= day <= utc_day(nanos as int) + 1,
{
    chrono::DateTime::from_timestamp_nanos(nanos).with_timezone(&chrono::Local).date_naive().num_days_from_ce()
}

/// `chrono::DateTime::with_timezone` into `chrono::Local`, then `time`: the
/// local time of day at the instant `nanos` nanoseconds after the epoch, as
/// `num_seconds_from_midnight` and `nanosecond` give it. Which second of
/// the day it is depends on the machine's time zone. `chrono` adds an offset
/// of whole seconds to the time in UTC and keeps the result within the day,
/// so that the seconds stay below 86 400 and the nanoseconds are those of
/// the instant: that much is claimed.
#[verifier::external_body]
fn local_time_parts(nanos: i64) -> (parts: (u32, u32))
    ensures
        parts.0 < 86_400,
        parts.1 == nanos as int % 1_000_000_000,
{
    let time = chrono::DateTime::from_timestamp_nanos(nanos).with_timezone(&chrono::Local).time();
    (time.num_seconds_from_midnight(), time.nanosecond())
}

/// `chrono::Local::now`: the current local day, as `num_days_from_ce` counts
/// it, and how many days after Monday it falls, as
/// `Weekday::num_days_from_monday` counts them (Monday is 0, Sunday is 6).
#[verifier::external_body]
fn local_today_parts() -> (parts: (i32, u32))
    ensures
        parts.1 < 7,
{
    let now = chrono::Local::now();
    (now.date_naive().num_days_from_ce(), now.weekday().num_days_from_monday())
}

/// The current instant, whatever the clock reads: no instant before 1970.
pub(crate) fn now() -> (t: Timestamp)
    ensures
        t@ >= 0,
{
    let (secs, subsec_nanos) = utc_now_parts();
    Timestamp::from_parts(secs, subsec_nanos)
}

/// The local calendar day on which `t` falls. Whatever the time zone is,
/// it is the day on which `t` falls in UTC, the day before it or the day
/// after it.
pub(crate) fn local_day(t: Timestamp) -> (day: Day)
    ensures
        utc_day(t@) - 1 <= day <= utc_day(t@) + 1,
{
    local_day_parts(t.nanos) as i64
}

/// The local time of day at `t`. Whatever the time zone is, it moves the
/// time by whole seconds only: the nanoseconds past the second are those
/// of `t`.
pub(crate) fn local_time(t: Timestamp) -> (time: TimeOfDay)
    ensures
        time.secs < 86_400,
        time.frac == t@ % 1_000_000_000,
{
    let (secs, frac) = local_time_parts(t.nanos);
    TimeOfDay { secs, frac }
}

/// Today's local calendar day and the number of days since Monday.
pub(crate) fn local_today() -> (r: (Day, u32))
    ensures
        i32::MIN <= r.0 <= i32::MAX,
        r.1 < 7,
{
    let (day, since_monday) = local_today_parts();
    (day as i64, since_monday)
}

} // verus!
