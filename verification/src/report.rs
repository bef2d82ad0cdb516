//! What a report of the log is made from.

use crate::clock::{local_today, Day};
use crate::models::{Database, Interval};
use crate::stats::{daily_stats, date_intervals, dates, is_daily, near_utc, DatedInterval};
use crate::storage::Storage;
use crate::time::{clamp_to_duration, div_toward_zero, Duration};
use crate::utils::{decimal, push_decimal};
use std::collections::BTreeMap;
use vstd::prelude::*;

pub use crate::stats::DayStats;

verus! {

/// The statistics of the log by day, with the days that a report marks.
pub struct ReportData {
    pub daily_stats: BTreeMap<Day, DayStats>,
    pub today: Day,
    pub week_start: Day,
}

impl ReportData {
    /// Whether this is the report data of `log` for some local calendar:
    /// `dated` gives each interval of `log` its day, and today is
    /// `since_monday` days after the Monday on which the week began.
    pub open spec fn describes_log(self, log: Seq<Interval>, dated: Seq<DatedInterval>, since_monday: int) -> bool {
        &&& dates(dated, log)
        &&& near_utc(dated)
        &&& 0 <= since_monday < 7
        &&& self.week_start == self.today - since_monday
        &&& is_daily(self.daily_stats@, dated)
    }

    /// The report data of `dated` when today is `today` and the week began
    /// on `week_start`.
    pub fn at(dated: &[DatedInterval], today: Day, week_start: Day) -> (data: ReportData)
        ensures
            is_daily(data.daily_stats@, dated@),
            data.today == today,
            data.week_start == week_start,
    {
        ReportData { daily_stats: daily_stats(dated), today, week_start }
    }

    /// Whether a report shows `day`: it does from the start of the week on.
    pub fn shows(&self, day: Day) -> (r: bool)
        ensures
            r == (day >= self.week_start),
    {
        day >= self.week_start
    }

    /// Whether `day` is today.
    pub fn is_today(&self, day: Day) -> (r: bool)
        ensures
            r == (day == self.today),
    {
        day == self.today
    }
}

/// Makes reports of the log kept in a storage.
pub struct Reporter {
    storage: Storage,
}

impl Reporter {
    /// The storage whose log is reported.
    pub closed spec fn source(&self) -> Storage {
        self.storage
    }

    /// A reporter of the log kept in `storage`.
    pub fn new(storage: Storage) -> (reporter: Reporter)
        ensures
            reporter.source() == storage,
    {
        Reporter { storage }
    }

    /// The storage whose log is reported.
    pub fn storage(&self) -> (storage: &Storage)
        ensures
            *storage == self.source(),
    {
        &self.storage
    }

    /// The report data of the log `db`, read from the storage by the
    /// caller, as the local calendar shows it now.
    pub fn get_data(&self, db: &Database) -> (data: ReportData)
        ensures
            exists|dated: Seq<DatedInterval>, since_monday: int| #[trigger]
                data.describes_log(db@, dated, since_monday),
            data.today - 6 <= data.week_start <= data.today,
    {
        let (today, since_monday) = local_today();
        let week_start: Day = today - since_monday as i64;
        let dated = date_intervals(db.intervals.as_slice());
        let data = ReportData::at(dated.as_slice(), today, week_start);
        proof {
            assert(data.describes_log(db@, dated@, since_monday as int));
        }
        data
    }
}

/// Time and interval counts summed over the days of a report.
#[derive(Clone, Copy, Debug, PartialEq, Eq)]
pub struct WeekTotals {
    pub total_focus: Duration,
    pub total_idle: Duration,
    pub focus_sessions: u64,
    pub idle_sessions: u64,
}

/// `a + b`, or `u64::MAX` where the sum lies above it.
pub open spec fn capped_sum(a: u64, b: u64) -> u64 {
    if a + b > u64::MAX {
        u64::MAX
    } else {
        (a + b) as u64
    }
}

impl WeekTotals {
    /// Totals of no day at all.
    pub fn new() -> (totals: WeekTotals)
        ensures
            totals.total_focus@ == 0,
            totals.total_idle@ == 0,
            totals.focus_sessions == 0,
            totals.idle_sessions == 0,
    {
        WeekTotals {
            total_focus: Duration::zero(),
            total_idle: Duration::zero(),
            focus_sessions: 0,
            idle_sessions: 0,
        }
    }

    /// Adds the statistics of one day. Times and counts stop at the largest
    /// value they can hold.
    pub fn add_day(&mut self, day: &DayStats)
        ensures
            final(self).total_focus@ == clamp_to_duration(old(self).total_focus@ + day.total_focus@),
            final(self).total_idle@ == clamp_to_duration(old(self).total_idle@ + day.total_idle@),
            final(self).focus_sessions == capped_sum(old(self).focus_sessions, day.focus_sessions),
            final(self).idle_sessions == capped_sum(old(self).idle_sessions, day.idle_sessions),
    {
        self.total_focus = self.total_focus.saturating_add(day.total_focus);
        self.total_idle = self.total_idle.saturating_add(day.total_idle);
        self.focus_sessions = self.focus_sessions.saturating_add(day.focus_sessions);
        self.idle_sessions = self.idle_sessions.saturating_add(day.idle_sessions);
    }
}

/// The longer of the two totals of a day: what its bars are scaled by.
pub fn longer_total(day: &DayStats) -> (d: Duration)
    ensures
        d@ == if day.total_focus@ >= day.total_idle@ {
            day.total_focus@
        } else {
            day.total_idle@
        },
{
    day.total_focus.longest(day.total_idle)
}

/// The mean length of `count` intervals that last `total` together, in
/// whole nanoseconds rounded toward zero; `None` of no intervals.
pub fn average(total: Duration, count: u64) -> (mean: Option<Duration>)
    ensures
        count == 0 ==> mean is None,
        count > 0 ==> (mean matches Some(d) && d@ == div_toward_zero(total@, count as int)),
{
    if count == 0 {
        return None;
    }
    let nanos = total.nanos();
    let divisor = count as i128;
    if nanos >= 0 {
        let q = nanos / divisor;
        assert(0 <= q <= nanos) by (nonlinear_arith)
            requires
                q == nanos / divisor,
                nanos >= 0,
                divisor >= 1,
        ;
        Some(Duration::from_nanos(q))
    } else {
        let m = -nanos;
        let q = m / divisor;
        assert(0 <= q <= m) by (nonlinear_arith)
            requires
                q == m / divisor,
                m >= 0,
                divisor >= 1,
        ;
        Some(Duration::from_nanos(-q))
    }
}

/// How a report writes a number of seconds that is not negative: hours,
/// minutes and seconds from the largest part that is not zero on.
pub open spec fn clock_text(seconds: nat) -> Seq<char> {
    let hours = seconds / 3600;
    let mins = (seconds % 3600) / 60;
    let secs = seconds % 60;
    if hours > 0 {
        decimal(hours) + seq!['h', ' '] + decimal(mins) + seq!['m', ' '] + decimal(secs) + seq!['s']
    } else if mins > 0 {
        decimal(mins) + seq!['m', ' '] + decimal(secs) + seq!['s']
    } else {
        decimal(secs) + seq!['s']
    }
}

/// How a report writes a span: `1h 1m 1s`, `1m 30s`, `30s`.
///
/// Of a negative span only the seconds past the last whole minute are
/// written, with their sign.
pub open spec fn formatted(seconds: int) -> Seq<char> {
    if seconds >= 0 {
        clock_text(seconds as nat)
    } else if (-seconds) % 60 == 0 {
        seq!['0', 's']
    } else {
        seq!['-'] + decimal(((-seconds) % 60) as nat) + seq!['s']
    }
}

/// Writes a span as hours, minutes and seconds.
pub fn format_duration(d: Duration) -> (text: String)
    ensures
        text@ == formatted(div_toward_zero(d@, 1_000_000_000)),
{
    let total = d.num_seconds();
    let mut out = String::new();
    proof {
        reveal_strlit("h ");
        reveal_strlit("m ");
        reveal_strlit("s");
        reveal_strlit("-");
    }
    if total < 0 {
        let rest: u64 = ((-(total as i128)) % 60) as u64;
        if rest != 0 {
            out.append("-");
        }
        push_decimal(&mut out, rest);
        out.append("s");
        proof {
            reveal_with_fuel(decimal, 2);
        }
        return out;
    }
    let seconds = total as u64;
    let hours = seconds / 3600;
    let mins = (seconds % 3600) / 60;
    let secs = seconds % 60;
    if hours > 0 {
        push_decimal(&mut out, hours);
        out.append("h ");
        push_decimal(&mut out, mins);
        out.append("m ");
    } else if mins > 0 {
        push_decimal(&mut out, mins);
        out.append("m ");
    }
    push_decimal(&mut out, secs);
    out.append("s");
    out
}

} // verus!
