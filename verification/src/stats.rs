//! Statistics derived from the interval log.

use crate::clock::{local_day, local_today, utc_day, Day};
use crate::models::{Database, Interval, IntervalType};
use crate::time::{clamp_to_duration, Duration, Timestamp};
use std::collections::BTreeMap;
use vstd::prelude::*;

verus! {

/// Whether `iv` enters the statistics of `kind`: it is of that kind and does
/// not end before it starts.
pub open spec fn counts_as(iv: Interval, kind: IntervalType) -> bool {
    iv.is_valid() && iv.kind == kind
}

/// What `iv` adds to the total time of `kind`, in nanoseconds.
pub open spec fn share(iv: Interval, kind: IntervalType) -> int {
    if counts_as(iv, kind) {
        iv.span()
    } else {
        0
    }
}

/// The total length, in nanoseconds, of the intervals of `log` that count
/// as `kind`.
pub open spec fn total_span(log: Seq<Interval>, kind: IntervalType) -> int
    decreases log.len(),
{
    if log.len() == 0 {
        0
    } else {
        total_span(log.drop_last(), kind) + share(log.last(), kind)
    }
}

/// The number of intervals of `log` that count as `kind`.
pub open spec fn count_of(log: Seq<Interval>, kind: IntervalType) -> nat
    decreases log.len(),
{
    if log.len() == 0 {
        0
    } else {
        count_of(log.drop_last(), kind) + if counts_as(log.last(), kind) {
            1nat
        } else {
            0nat
        }
    }
}

/// Whether `longest` is the length of the longest interval of `log` that
/// counts as `kind`: `None` exactly when no interval counts.
pub open spec fn is_longest(log: Seq<Interval>, kind: IntervalType, longest: Option<Duration>) -> bool {
    match longest {
        None => forall|j: int| 0 <= j < log.len() ==> !counts_as(#[trigger] log[j], kind),
        Some(d) => (exists|j: int|
            0 <= j < log.len() && counts_as(#[trigger] log[j], kind) && log[j].span() == d@) && (
        forall|j: int|
            0 <= j < log.len() && counts_as(#[trigger] log[j], kind) ==> log[j].span() <= d@),
    }
}

/// Whether `shortest` is the length of the shortest interval of `log` that
/// counts as `kind`: `None` exactly when no interval counts.
pub open spec fn is_shortest(log: Seq<Interval>, kind: IntervalType, shortest: Option<Duration>) -> bool {
    match shortest {
        None => forall|j: int| 0 <= j < log.len() ==> !counts_as(#[trigger] log[j], kind),
        Some(d) => (exists|j: int|
            0 <= j < log.len() && counts_as(#[trigger] log[j], kind) && log[j].span() == d@) && (
        forall|j: int|
            0 <= j < log.len() && counts_as(#[trigger] log[j], kind) ==> log[j].span() >= d@),
    }
}

/// Appending an interval adds its share to the total and to the count.
pub proof fn lemma_totals_push(log: Seq<Interval>, iv: Interval, kind: IntervalType)
    ensures
        total_span(log.push(iv), kind) == total_span(log, kind) + share(iv, kind),
        count_of(log.push(iv), kind) == count_of(log, kind) + if counts_as(iv, kind) {
            1nat
        } else {
            0nat
        },
{
    assert(log.push(iv).drop_last() =~= log);
}

/// No total is negative, and no count exceeds the length of the log.
pub proof fn lemma_totals_bounds(log: Seq<Interval>, kind: IntervalType)
    ensures
        0 <= total_span(log, kind),
        count_of(log, kind) <= log.len(),
    decreases log.len(),
{
    if log.len() > 0 {
        lemma_totals_bounds(log.drop_last(), kind);
    }
}

/// Time and interval counts of one calendar day.
#[derive(Clone, Copy, Debug, PartialEq, Eq)]
pub struct DayStats {
    pub total_focus: Duration,
    pub total_idle: Duration,
    pub focus_sessions: u64,
    pub idle_sessions: u64,
}

impl Default for DayStats {
    fn default() -> (s: DayStats)
        ensures
            s.summarizes(Seq::<Interval>::empty()),
    {
        DayStats {
            total_focus: Duration::zero(),
            total_idle: Duration::zero(),
            focus_sessions: 0,
            idle_sessions: 0,
        }
    }
}

impl DayStats {
    /// Whether these are the statistics of `log`: per kind, the total time
    /// of the intervals that count, at most the longest span a
    /// [`Duration`] holds, and their number.
    pub open spec fn summarizes(self, log: Seq<Interval>) -> bool {
        &&& self.total_focus@ == clamp_to_duration(total_span(log, IntervalType::Focus))
        &&& self.total_idle@ == clamp_to_duration(total_span(log, IntervalType::Idle))
        &&& self.focus_sessions == count_of(log, IntervalType::Focus)
        &&& self.idle_sessions == count_of(log, IntervalType::Idle)
    }

    /// These statistics with `iv` taken in.
    fn with(self, iv: Interval, Ghost(log): Ghost<Seq<Interval>>) -> (s: DayStats)
        requires
            self.summarizes(log),
            log.len() < usize::MAX,
        ensures
            s.summarizes(log.push(iv)),
    {
        proof {
            lemma_totals_push(log, iv, IntervalType::Focus);
            lemma_totals_push(log, iv, IntervalType::Idle);
            lemma_totals_bounds(log, IntervalType::Focus);
            lemma_totals_bounds(log, IntervalType::Idle);
        }
        if iv.end.nanos < iv.start.nanos {
            return self;
        }
        let span = iv.duration();
        match iv.kind {
            IntervalType::Focus => DayStats {
                total_focus: self.total_focus.saturating_add(span),
                total_idle: self.total_idle,
                focus_sessions: self.focus_sessions + 1,
                idle_sessions: self.idle_sessions,
            },
            IntervalType::Idle => DayStats {
                total_focus: self.total_focus,
                total_idle: self.total_idle.saturating_add(span),
                focus_sessions: self.focus_sessions,
                idle_sessions: self.idle_sessions + 1,
            },
        }
    }
}

/// Time, interval counts and extremes of a selection of intervals.
#[derive(Clone, Copy, Debug, PartialEq, Eq)]
pub struct SummaryStats {
    pub total_focus: Duration,
    pub total_idle: Duration,
    pub focus_count: u64,
    pub idle_count: u64,
    pub max_focus: Option<Duration>,
    pub min_focus: Option<Duration>,
    pub max_idle: Option<Duration>,
    pub min_idle: Option<Duration>,
}

impl Default for SummaryStats {
    fn default() -> (s: SummaryStats)
        ensures
            s.summarizes(Seq::<Interval>::empty()),
            s.max_focus is None,
            s.min_focus is None,
            s.max_idle is None,
            s.min_idle is None,
    {
        SummaryStats {
            total_focus: Duration::zero(),
            total_idle: Duration::zero(),
            focus_count: 0,
            idle_count: 0,
            max_focus: None,
            min_focus: None,
            max_idle: None,
            min_idle: None,
        }
    }
}

impl SummaryStats {
    /// Whether this is the summary of `log`: per kind, the total time of
    /// the intervals that count, at most the longest span a [`Duration`]
    /// holds, their number, and the longest and the shortest of them.
    pub open spec fn summarizes(self, log: Seq<Interval>) -> bool {
        &&& self.total_focus@ == clamp_to_duration(total_span(log, IntervalType::Focus))
        &&& self.total_idle@ == clamp_to_duration(total_span(log, IntervalType::Idle))
        &&& self.focus_count == count_of(log, IntervalType::Focus)
        &&& self.idle_count == count_of(log, IntervalType::Idle)
        &&& is_longest(log, IntervalType::Focus, self.max_focus)
        &&& is_shortest(log, IntervalType::Focus, self.min_focus)
        &&& is_longest(log, IntervalType::Idle, self.max_idle)
        &&& is_shortest(log, IntervalType::Idle, self.min_idle)
    }
}

/// The longer of `seen` and `span`.
fn longest_of(seen: Option<Duration>, span: Duration) -> (r: Option<Duration>)
    ensures
        r matches Some(d) && d@ == (match seen {
            Some(m) => if m@ >= span@ {
                m@
            } else {
                span@
            },
            None => span@,
        }),
{
    match seen {
        Some(m) => Some(m.longest(span)),
        None => Some(span),
    }
}

/// The shorter of `seen` and `span`.
fn shortest_of(seen: Option<Duration>, span: Duration) -> (r: Option<Duration>)
    ensures
        r matches Some(d) && d@ == (match seen {
            Some(m) => if m@ <= span@ {
                m@
            } else {
                span@
            },
            None => span@,
        }),
{
    match seen {
        Some(m) => Some(m.shortest(span)),
        None => Some(span),
    }
}

/// Summarizes `intervals`, skipping those that end before they start.
pub fn calculate_summary(intervals: &[Interval]) -> (summary: SummaryStats)
    ensures
        summary.summarizes(intervals@),
{
    let mut summary = SummaryStats::default();
    let n = intervals.len();
    let mut i: usize = 0;
    while i < n
        invariant
            i <= n,
            n == intervals@.len(),
            summary.summarizes(intervals@.take(i as int)),
        decreases n - i,
    {
        let iv = intervals[i];
        let ghost seen = intervals@.take(i as int);
        let ghost next = intervals@.take(i as int + 1);
        proof {
            assert(seen.push(iv) =~= next);
            lemma_totals_push(seen, iv, IntervalType::Focus);
            lemma_totals_push(seen, iv, IntervalType::Idle);
            lemma_totals_bounds(seen, IntervalType::Focus);
            lemma_totals_bounds(seen, IntervalType::Idle);
        }
        if iv.start.nanos <= iv.end.nanos {
            let span = iv.duration();
            match iv.kind {
                IntervalType::Focus => {
                    summary.total_focus = summary.total_focus.saturating_add(span);
                    summary.focus_count = summary.focus_count + 1;
                    summary.max_focus = longest_of(summary.max_focus, span);
                    summary.min_focus = shortest_of(summary.min_focus, span);
                },
                IntervalType::Idle => {
                    summary.total_idle = summary.total_idle.saturating_add(span);
                    summary.idle_count = summary.idle_count + 1;
                    summary.max_idle = longest_of(summary.max_idle, span);
                    summary.min_idle = shortest_of(summary.min_idle, span);
                },
            }
        }
        i += 1;
    }
    assert(intervals@.take(n as int) =~= intervals@);
    summary
}

/// An interval together with the local calendar day on which it starts.
#[derive(Clone, Copy, Debug, PartialEq, Eq)]
pub struct DatedInterval {
    pub interval: Interval,
    pub day: Day,
}

/// The intervals of the entries of `dated` that `keep` accepts, in order.
pub open spec fn selected(dated: Seq<DatedInterval>, keep: spec_fn(DatedInterval) -> bool) -> Seq<Interval>
    decreases dated.len(),
{
    if dated.len() == 0 {
        Seq::empty()
    } else if keep(dated.last()) {
        selected(dated.drop_last(), keep).push(dated.last().interval)
    } else {
        selected(dated.drop_last(), keep)
    }
}

/// Accepts the entries whose day lies between `first` and `last`, both
/// included.
pub open spec fn on_days(first: int, last: int) -> spec_fn(DatedInterval) -> bool {
    |d: DatedInterval| first <= d.day <= last
}

/// Accepts the entries whose interval starts at `run_start` or later; none
/// where there is no `run_start`.
pub open spec fn since(run_start: Option<Timestamp>) -> spec_fn(DatedInterval) -> bool {
    |d: DatedInterval|
        match run_start {
            Some(t) => d.interval.start@ >= t@,
            None => false,
        }
}

/// The intervals of `log` that start at `run_start` or later, in order;
/// none where there is no `run_start`.
pub open spec fn started_since(log: Seq<Interval>, run_start: Option<Timestamp>) -> Seq<Interval>
    decreases log.len(),
{
    if log.len() == 0 {
        Seq::empty()
    } else if run_start matches Some(t) && log.last().start@ >= t@ {
        started_since(log.drop_last(), run_start).push(log.last())
    } else {
        started_since(log.drop_last(), run_start)
    }
}

/// Whether `dated` holds the intervals of `log`, in order, each with some
/// day.
pub open spec fn dates(dated: Seq<DatedInterval>, log: Seq<Interval>) -> bool {
    &&& dated.len() == log.len()
    &&& forall|j: int| 0 <= j < log.len() ==> (#[trigger] dated[j]).interval == log[j]
}

/// Whether each entry of `dated` is on the day on which its interval starts
/// in UTC, on the day before it or on the day after it: as far as the day
/// of a local calendar lies from the day in UTC.
pub open spec fn near_utc(dated: Seq<DatedInterval>) -> bool {
    forall|j: int|
        0 <= j < dated.len() ==> utc_day((#[trigger] dated[j]).interval.start@) - 1 <= dated[j].day
            <= utc_day(dated[j].interval.start@) + 1
}

/// Whether some interval of `dated` on `day` does not end before it starts.
pub open spec fn has_entry(dated: Seq<DatedInterval>, day: Day) -> bool {
    exists|j: int|
        0 <= j < dated.len() && (#[trigger] dated[j]).day == day && dated[j].interval.is_valid()
}

/// Whether `daily` holds, for each day on which a valid interval of `dated`
/// starts and for no other, the statistics of the intervals of that day.
pub open spec fn is_daily(daily: Map<Day, DayStats>, dated: Seq<DatedInterval>) -> bool {
    forall|day: Day|
        (#[trigger] daily.contains_key(day) <==> has_entry(dated, day)) && (daily.contains_key(day)
            ==> daily[day].summarizes(selected(dated, on_days(day as int, day as int))))
}

/// Appending an entry appends its interval to the selection where `keep`
/// accepts it, and leaves the selection as it was where not.
pub proof fn lemma_selected_push(
    dated: Seq<DatedInterval>,
    d: DatedInterval,
    keep: spec_fn(DatedInterval) -> bool,
)
    ensures
        selected(dated.push(d), keep) == if keep(d) {
            selected(dated, keep).push(d.interval)
        } else {
            selected(dated, keep)
        },
{
    assert(dated.push(d).drop_last() =~= dated);
}

/// A selection is no longer than what it was selected from.
pub proof fn lemma_selected_len(dated: Seq<DatedInterval>, keep: spec_fn(DatedInterval) -> bool)
    ensures
        selected(dated, keep).len() <= dated.len(),
    decreases dated.len(),
{
    if dated.len() > 0 {
        lemma_selected_len(dated.drop_last(), keep);
    }
}

/// Which days the entries fall on does not matter to the selection by
/// start.
pub proof fn lemma_selected_since(
    dated: Seq<DatedInterval>,
    log: Seq<Interval>,
    run_start: Option<Timestamp>,
)
    requires
        dates(dated, log),
    ensures
        selected(dated, since(run_start)) == started_since(log, run_start),
    decreases log.len(),
{
    if log.len() > 0 {
        lemma_selected_since(dated.drop_last(), log.drop_last(), run_start);
    }
}

/// Where no valid interval starts on a day, the statistics of that day are
/// those of an empty log.
proof fn lemma_no_entry(dated: Seq<DatedInterval>, day: Day, kind: IntervalType)
    requires
        !has_entry(dated, day),
    ensures
        total_span(selected(dated, on_days(day as int, day as int)), kind) == 0,
        count_of(selected(dated, on_days(day as int, day as int)), kind) == 0,
    decreases dated.len(),
{
    if dated.len() > 0 {
        let keep = on_days(day as int, day as int);
        let last = dated.last();
        lemma_no_entry(dated.drop_last(), day, kind);
        if keep(last) {
            lemma_totals_push(selected(dated.drop_last(), keep), last.interval, kind);
        }
    }
}

/// What appending an entry does to whether a day has a valid interval.
proof fn lemma_has_entry_push(dated: Seq<DatedInterval>, d: DatedInterval, day: Day)
    ensures
        has_entry(dated.push(d), day) <==> has_entry(dated, day) || (d.day == day
            && d.interval.is_valid()),
{
    let more = dated.push(d);
    if has_entry(dated, day) {
        let j = choose|j: int|
            0 <= j < dated.len() && (#[trigger] dated[j]).day == day && dated[j].interval.is_valid();
        assert(more[j] == dated[j]);
    }
    if d.day == day && d.interval.is_valid() {
        assert(more[dated.len() as int] == d);
    }
}

/// The statistics of each day on which a valid interval starts.
pub fn daily_stats(dated: &[DatedInterval]) -> (daily: BTreeMap<Day, DayStats>)
    ensures
        is_daily(daily@, dated@),
{
    let mut daily: BTreeMap<Day, DayStats> = BTreeMap::new();
    let n = dated.len();
    let mut i: usize = 0;
    proof {
        assert forall|day: Day| !has_entry(dated@.take(0), day) by {}
    }
    while i < n
        invariant
            i <= n,
            n == dated@.len(),
            is_daily(daily@, dated@.take(i as int)),
        decreases n - i,
    {
        let d = dated[i];
        let ghost seen = dated@.take(i as int);
        let ghost before = daily@;
        let ghost own = on_days(d.day as int, d.day as int);
        proof {
            assert(seen.push(d) =~= dated@.take(i as int + 1));
            lemma_selected_len(seen, own);
            lemma_selected_push(seen, d, own);
        }
        if d.interval.start.nanos <= d.interval.end.nanos {
            let current = match daily.get(&d.day) {
                Some(stats) => *stats,
                None => {
                    proof {
                        lemma_no_entry(seen, d.day, IntervalType::Focus);
                        lemma_no_entry(seen, d.day, IntervalType::Idle);
                    }
                    DayStats::default()
                },
            };
            let updated = current.with(d.interval, Ghost(selected(seen, own)));
            daily.insert(d.day, updated);
        }
        proof {
            assert forall|day: Day|
                (#[trigger] daily@.contains_key(day) <==> has_entry(seen.push(d), day)) && (
                daily@.contains_key(day) ==> daily@[day].summarizes(
                    selected(seen.push(d), on_days(day as int, day as int)),
                )) by {
                let keep = on_days(day as int, day as int);
                lemma_has_entry_push(seen, d, day);
                lemma_selected_push(seen, d, keep);
                if day == d.day && !d.interval.is_valid() {
                    lemma_totals_push(selected(seen, keep), d.interval, IntervalType::Focus);
                    lemma_totals_push(selected(seen, keep), d.interval, IntervalType::Idle);
                }
            }
        }
        i += 1;
    }
    assert(dated@.take(n as int) =~= dated@);
    daily
}

/// The statistics of the log by day, of the current run, of today and of
/// the current week.
pub struct Stats {
    pub daily_stats: BTreeMap<Day, DayStats>,
    pub session_summary: SummaryStats,
    pub today_summary: SummaryStats,
    pub week_summary: SummaryStats,
    pub today: Day,
    pub week_start: Day,
}

impl Stats {
    /// Whether these are the statistics of `dated` when today is `today`,
    /// the week began on `week_start` and the run began at `run_start`:
    /// the statistics of each day; the summary of the intervals that
    /// started during the run, of those of today, and of those of the seven
    /// days from `week_start` on.
    pub open spec fn describes(
        self,
        dated: Seq<DatedInterval>,
        today: Day,
        week_start: Day,
        run_start: Option<Timestamp>,
    ) -> bool {
        &&& is_daily(self.daily_stats@, dated)
        &&& self.session_summary.summarizes(selected(dated, since(run_start)))
        &&& self.today_summary.summarizes(selected(dated, on_days(today as int, today as int)))
        &&& self.week_summary.summarizes(
            selected(dated, on_days(week_start as int, week_start + 6)),
        )
        &&& self.today == today
        &&& self.week_start == week_start
    }

    /// Whether these are the statistics of `log` for some local calendar:
    /// `dated` gives each interval of `log` its day, and today is
    /// `since_monday` days after the Monday on which the week began.
    pub open spec fn describes_log(
        self,
        log: Seq<Interval>,
        dated: Seq<DatedInterval>,
        since_monday: int,
        run_start: Option<Timestamp>,
    ) -> bool {
        &&& dates(dated, log)
        &&& near_utc(dated)
        &&& 0 <= since_monday < 7
        &&& self.week_start == self.today - since_monday
        &&& self.describes(dated, self.today, self.week_start, run_start)
    }
}

/// The statistics of `dated` when today is `today`, the week began on
/// `week_start` and the run began at `run_start_time`.
pub fn calculate_stats_at(
    dated: &[DatedInterval],
    today: Day,
    week_start: Day,
    run_start_time: Option<Timestamp>,
) -> (stats: Stats)
    ensures
        stats.describes(dated@, today, week_start, run_start_time),
{
    let daily = daily_stats(dated);
    let mut session_intervals: Vec<Interval> = Vec::new();
    let mut today_intervals: Vec<Interval> = Vec::new();
    let mut week_intervals: Vec<Interval> = Vec::new();
    let n = dated.len();
    let mut i: usize = 0;
    let ghost in_session = since(run_start_time);
    let ghost is_today = on_days(today as int, today as int);
    let ghost in_week = on_days(week_start as int, week_start + 6);
    while i < n
        invariant
            i <= n,
            n == dated@.len(),
            in_session == since(run_start_time),
            is_today == on_days(today as int, today as int),
            in_week == on_days(week_start as int, week_start + 6),
            session_intervals@ == selected(dated@.take(i as int), in_session),
            today_intervals@ == selected(dated@.take(i as int), is_today),
            week_intervals@ == selected(dated@.take(i as int), in_week),
        decreases n - i,
    {
        let d = dated[i];
        proof {
            let seen = dated@.take(i as int);
            assert(seen.push(d) =~= dated@.take(i as int + 1));
            lemma_selected_push(seen, d, in_session);
            lemma_selected_push(seen, d, is_today);
            lemma_selected_push(seen, d, in_week);
        }
        match run_start_time {
            Some(run_start) => {
                if d.interval.start.nanos >= run_start.nanos {
                    session_intervals.push(d.interval);
                }
            },
            None => {},
        }
        if d.day == today {
            today_intervals.push(d.interval);
        }
        let offset: i128 = (d.day as i128) - (week_start as i128);
        if 0 <= offset && offset <= 6 {
            week_intervals.push(d.interval);
        }
        i += 1;
    }
    assert(dated@.take(n as int) =~= dated@);
    Stats {
        daily_stats: daily,
        session_summary: calculate_summary(session_intervals.as_slice()),
        today_summary: calculate_summary(today_intervals.as_slice()),
        week_summary: calculate_summary(week_intervals.as_slice()),
        today,
        week_start,
    }
}

/// Each interval of `log` with the local day on which it starts. Whatever
/// the machine's time zone is, that is the day on which it starts in UTC,
/// the day before it or the day after it.
pub fn date_intervals(log: &[Interval]) -> (dated: Vec<DatedInterval>)
    ensures
        dates(dated@, log@),
        near_utc(dated@),
{
    let mut dated: Vec<DatedInterval> = Vec::new();
    let n = log.len();
    let mut i: usize = 0;
    while i < n
        invariant
            i <= n,
            n == log@.len(),
            dated@.len() == i,
            forall|j: int| 0 <= j < i ==> (#[trigger] dated@[j]).interval == log@[j],
            near_utc(dated@),
        decreases n - i,
    {
        let interval = log[i];
        dated.push(DatedInterval { interval, day: local_day(interval.start) });
        i += 1;
    }
    dated
}

/// The statistics of the log as the local calendar shows it now: each
/// interval on the local day on which it starts, today as the local clock
/// has it, the week from the last Monday on.
///
/// What does not depend on the calendar is stated outright: the summary of
/// the run is that of the intervals that started at `run_start_time` or
/// later.
pub fn calculate_stats(db: &Database, run_start_time: Option<Timestamp>) -> (stats: Stats)
    ensures
        exists|dated: Seq<DatedInterval>, since_monday: int| #[trigger]
            stats.describes_log(db@, dated, since_monday, run_start_time),
        stats.session_summary.summarizes(started_since(db@, run_start_time)),
        stats.today - 6 <= stats.week_start <= stats.today,
{
    let (today, since_monday) = local_today();
    let week_start: Day = today - since_monday as i64;
    let dated = date_intervals(db.intervals.as_slice());
    let stats = calculate_stats_at(dated.as_slice(), today, week_start, run_start_time);
    proof {
        lemma_selected_since(dated@, db@, run_start_time);
        assert(stats.describes_log(db@, dated@, since_monday as int, run_start_time));
    }
    stats
}

} // verus!
