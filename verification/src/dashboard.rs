//! What a live display of a tracking run is made from, and what the loop
//! that drives the run does next.

use crate::clock::Day;
use crate::models::IntervalType;
use crate::report::average;
use crate::stats::{DayStats, Stats, SummaryStats};
use crate::time::{div_toward_zero, Duration, TimeOfDay, Timestamp};
use crate::tracker::{is_local_time, Tracker};
use vstd::prelude::*;

verus! {

/// What a key asks of the loop.
#[derive(Debug, Clone, Copy, PartialEq, Eq, Structural)]
pub enum Command {
    /// Leave the loop.
    Quit,
    /// Empty the log.
    Reset,
    /// Nothing: the key has no meaning.
    Ignore,
}

/// What the key `key` asks: `q` quits, `r` resets.
pub fn command_for(key: char) -> (command: Command)
    ensures
        command == if key == 'q' {
            Command::Quit
        } else if key == 'r' {
            Command::Reset
        } else {
            Command::Ignore
        },
{
    if key == 'q' {
        Command::Quit
    } else if key == 'r' {
        Command::Reset
    } else {
        Command::Ignore
    }
}

/// What the loop does in one round.
#[derive(Debug, Clone, Copy, PartialEq, Eq, Structural)]
pub enum Step {
    /// The run is over and the log has not been saved since: save it, then
    /// call [`Tracker::mark_session_ended`].
    SaveFinal,
    /// Read the idle time and hand it to [`Tracker::tick`].
    Sample,
    /// Nothing: the run is over and saved, or has not begun.
    Rest,
}

/// What a display says of the run.
#[derive(Debug, Clone, Copy, PartialEq, Eq, Structural)]
pub enum Status {
    /// The run is over.
    SessionEnded,
    /// Tracking begins at the start time, which has not come yet.
    Waiting { until: Option<TimeOfDay> },
    /// The last sample was Focus.
    InFlow,
    /// The last sample was Idle.
    Idle,
    /// No sample has been taken yet.
    Starting,
}

impl Tracker {
    /// What the loop does in a round in which the run is over if `stop`,
    /// and samples are taken if `track`.
    pub open spec fn step_for(&self, stop: bool, track: bool) -> Step {
        if stop {
            if self.session_ended_saved {
                Step::Rest
            } else {
                Step::SaveFinal
            }
        } else if track {
            Step::Sample
        } else {
            Step::Rest
        }
    }

    /// What the loop does in a round in which the run is over if `stop`,
    /// and samples are taken if `track`.
    pub fn plan_for(&self, stop: bool, track: bool) -> (step: Step)
        ensures
            step == self.step_for(stop, track),
    {
        if stop {
            if self.session_ended_saved {
                Step::Rest
            } else {
                Step::SaveFinal
            }
        } else if track {
            Step::Sample
        } else {
            Step::Rest
        }
    }

    /// What the loop does in the round at `now`. Where that depends on the
    /// local time of day, it holds for what the machine's time zone makes
    /// of `now`, asked once for the end of the run and once for its start:
    /// times of day that differ from the one in UTC by whole seconds.
    pub fn plan(&self, now: Timestamp) -> (step: Step)
        ensures
            exists|ending: TimeOfDay, starting: TimeOfDay|
                is_local_time(now, ending) && is_local_time(now, starting) && step == self.step_for(
                    #[trigger] self.stops_at(now, ending),
                    #[trigger] self.tracks_at(starting),
                ),
    {
        let stop = self.should_stop(now);
        if stop {
            proof {
                let ending = choose|local: TimeOfDay|
                    is_local_time(now, local) && stop == #[trigger] self.stops_at(now, local);
                assert(self.step_for(stop, true) == self.step_for(
                    self.stops_at(now, ending),
                    self.tracks_at(ending),
                ));
            }
            self.plan_for(stop, true)
        } else {
            let track = self.should_track(now);
            self.plan_for(stop, track)
        }
    }

    /// Records that the log was saved after the run was over.
    pub fn mark_session_ended(&mut self)
        ensures
            *final(self) == (Tracker { session_ended_saved: true, ..*old(self) }),
    {
        self.session_ended_saved = true;
    }

    /// What a display says of a run that is over if `stop`, and in which
    /// samples are taken if `track`.
    pub open spec fn status_when(&self, stop: bool, track: bool) -> Status {
        if stop {
            Status::SessionEnded
        } else if !track {
            Status::Waiting { until: self.start_time }
        } else {
            match self.last_kind_seen {
                Some(IntervalType::Focus) => Status::InFlow,
                Some(IntervalType::Idle) => Status::Idle,
                None => Status::Starting,
            }
        }
    }

    /// What a display says of a run that is over if `stop`, and in which
    /// samples are taken if `track`.
    pub fn status_for(&self, stop: bool, track: bool) -> (status: Status)
        ensures
            status == self.status_when(stop, track),
    {
        if stop {
            Status::SessionEnded
        } else if !track {
            Status::Waiting { until: self.start_time }
        } else {
            match self.last_kind_seen {
                Some(IntervalType::Focus) => Status::InFlow,
                Some(IntervalType::Idle) => Status::Idle,
                None => Status::Starting,
            }
        }
    }

    /// What a display says of the run at `now`. Where that depends on the
    /// local time of day, it holds for what the machine's time zone makes
    /// of `now`, asked once for the end of the run and once for its start:
    /// times of day that differ from the one in UTC by whole seconds.
    pub fn status(&self, now: Timestamp) -> (status: Status)
        ensures
            exists|ending: TimeOfDay, starting: TimeOfDay|
                is_local_time(now, ending) && is_local_time(now, starting) && status
                    == self.status_when(
                    #[trigger] self.stops_at(now, ending),
                    #[trigger] self.tracks_at(starting),
                ),
            status matches Status::Waiting { until } ==> until is Some,
    {
        let stop = self.should_stop(now);
        if stop {
            proof {
                let ending = choose|local: TimeOfDay|
                    is_local_time(now, local) && stop == #[trigger] self.stops_at(now, local);
                assert(self.status_when(stop, true) == self.status_when(
                    self.stops_at(now, ending),
                    self.tracks_at(ending),
                ));
            }
            self.status_for(stop, true)
        } else {
            let track = self.should_track(now);
            self.status_for(stop, track)
        }
    }

    /// The whole seconds that a run with a duration has left at `now`,
    /// where at least one is left.
    pub fn remaining_secs(&self, now: Timestamp) -> (left: Option<i64>)
        ensures
            left == match self.duration {
                Some(d) => {
                    let secs = div_toward_zero(
                        d@ - (now@ - self.run_start_time@),
                        1_000_000_000,
                    );
                    if secs > 0 {
                        Some(secs as i64)
                    } else {
                        None
                    }
                },
                None => None,
            },
    {
        match self.duration {
            Some(d) => {
                let elapsed: i128 = (now.nanos as i128) - (self.run_start_time.nanos as i128);
                let left: i128 = d.nanos() - elapsed;
                if left >= 1_000_000_000 {
                    Some((left / 1_000_000_000i128) as i64)
                } else {
                    None
                }
            },
            None => None,
        }
    }

    /// The whole seconds, rounded toward zero, since the classification
    /// last changed.
    pub fn state_elapsed_secs(&self, now: Timestamp) -> (secs: i64)
        ensures
            secs == div_toward_zero(now@ - self.state_start@, 1_000_000_000),
    {
        now.duration_since(self.state_start).num_seconds()
    }
}

impl SummaryStats {
    /// The mean length of the Focus intervals; zero where there are none.
    pub fn avg_focus(&self) -> (mean: Duration)
        ensures
            mean@ == if self.focus_count > 0 {
                div_toward_zero(self.total_focus@, self.focus_count as int)
            } else {
                0
            },
    {
        match average(self.total_focus, self.focus_count) {
            Some(mean) => mean,
            None => Duration::zero(),
        }
    }

    /// The mean length of the Idle intervals; zero where there are none.
    pub fn avg_idle(&self) -> (mean: Duration)
        ensures
            mean@ == if self.idle_count > 0 {
                div_toward_zero(self.total_idle@, self.idle_count as int)
            } else {
                0
            },
    {
        match average(self.total_idle, self.idle_count) {
            Some(mean) => mean,
            None => Duration::zero(),
        }
    }
}

/// The whole seconds of Focus and of Idle time of one day of the week.
#[derive(Debug, Clone, Copy, PartialEq, Eq, Structural)]
pub struct DayBar {
    pub focus_secs: i64,
    pub idle_secs: i64,
}

/// The bar of the day `offset` days after `week_start`: the whole seconds
/// of what `daily` holds for that day, zero where it holds nothing.
pub open spec fn bar_of(daily: Map<Day, DayStats>, week_start: Day, offset: int) -> DayBar {
    let day = week_start + offset;
    if day <= i64::MAX && daily.contains_key(day as i64) {
        DayBar {
            focus_secs: div_toward_zero(daily[day as i64].total_focus@, 1_000_000_000) as i64,
            idle_secs: div_toward_zero(daily[day as i64].total_idle@, 1_000_000_000) as i64,
        }
    } else {
        DayBar { focus_secs: 0, idle_secs: 0 }
    }
}

/// The largest of 1 and the sums of both times of the first `n` bars.
pub open spec fn tallest(bars: Seq<DayBar>, n: int) -> int
    decreases n,
{
    if n <= 0 {
        1
    } else {
        let rest = tallest(bars, n - 1);
        let total = bars[n - 1].focus_secs + bars[n - 1].idle_secs;
        if total > rest {
            total
        } else {
            rest
        }
    }
}

/// The bars of the seven days of the week, Monday first.
pub struct WeekChart {
    pub bars: Vec<DayBar>,
    /// What the bars are scaled by: the largest sum of both times of a
    /// day, and at least 1.
    pub max_total_secs: i64,
}

/// The chart of the week of `stats`.
pub fn week_chart(stats: &Stats) -> (chart: WeekChart)
    ensures
        chart.bars@.len() == 7,
        forall|i: int|
            0 <= i < 7 ==> chart.bars@[i] == bar_of(stats.daily_stats@, stats.week_start, i),
        chart.max_total_secs == tallest(chart.bars@, 7),
{
    let mut bars: Vec<DayBar> = Vec::new();
    let mut max_total_secs: i64 = 1;
    let mut i: i64 = 0;
    while i < 7
        invariant
            0 <= i <= 7,
            bars@.len() == i,
            forall|j: int|
                0 <= j < i ==> bars@[j] == bar_of(stats.daily_stats@, stats.week_start, j),
            max_total_secs == tallest(bars@, i as int),
        decreases 7 - i,
    {
        let bar = match stats.week_start.checked_add(i) {
            Some(day) => match stats.daily_stats.get(&day) {
                Some(found) => DayBar {
                    focus_secs: found.total_focus.num_seconds(),
                    idle_secs: found.total_idle.num_seconds(),
                },
                None => DayBar { focus_secs: 0, idle_secs: 0 },
            },
            None => DayBar { focus_secs: 0, idle_secs: 0 },
        };
        let ghost before = bars@;
        bars.push(bar);
        let total = bar.focus_secs + bar.idle_secs;
        if total > max_total_secs {
            max_total_secs = total;
        }
        proof {
            assert forall|j: int| 0 <= j < i implies bars@[j] == before[j] by {}
            assert(tallest(bars@, i as int) == tallest(before, i as int)) by {
                lemma_tallest_prefix(before, bars@, i as int);
            }
        }
        i += 1;
    }
    WeekChart { bars, max_total_secs }
}

/// The tallest of the first bars is the same in two rows of bars that
/// agree on them.
proof fn lemma_tallest_prefix(a: Seq<DayBar>, b: Seq<DayBar>, n: int)
    requires
        0 <= n <= a.len(),
        n <= b.len(),
        forall|j: int| 0 <= j < n ==> a[j] == b[j],
    ensures
        tallest(a, n) == tallest(b, n),
    decreases n,
{
    if n > 0 {
        lemma_tallest_prefix(a, b, n - 1);
    }
}

/// How many rows of a bar `height` rows high stand for `secs` seconds when
/// the whole height stands for `max_total_secs`: none for a time that is
/// not positive, and never more than the height.
pub open spec fn rows_for(secs: int, max_total_secs: int, height: int) -> int {
    if secs <= 0 || max_total_secs <= 0 {
        0
    } else if secs * height / max_total_secs > height {
        height
    } else {
        secs * height / max_total_secs
    }
}

/// The rows of one bar, from the top: empty, Idle, Focus.
#[derive(Debug, Clone, Copy, PartialEq, Eq, Structural)]
pub struct BarRows {
    pub empty: u16,
    pub idle: u16,
    pub focus: u16,
}

fn rows(secs: i64, max_total_secs: i64, height: u16) -> (r: u16)
    ensures
        r == rows_for(secs as int, max_total_secs as int, height as int),
        r <= height,
{
    if secs <= 0 || max_total_secs <= 0 {
        return 0;
    }
    assert(0 <= secs * height <= 9_223_372_036_854_775_807 * 65_535) by (nonlinear_arith)
        requires
            0 < secs <= 9_223_372_036_854_775_807,
            0 <= height <= 65_535,
    ;
    let scaled: i128 = (secs as i128) * (height as i128);
    let q: i128 = scaled / (max_total_secs as i128);
    assert(0 <= q) by (nonlinear_arith)
        requires
            q == (scaled as int) / (max_total_secs as int),
            scaled >= 0,
            max_total_secs > 0,
    ;
    if q > height as i128 {
        height
    } else {
        q as u16
    }
}

/// The rows of a bar `height` rows high for a day with so many seconds of
/// Focus and of Idle time, when the whole height stands for
/// `max_total_secs`: Focus at the bottom, Idle above it, the rest empty.
pub fn bar_rows(bar: DayBar, max_total_secs: i64, height: u16) -> (r: BarRows)
    ensures
        r.focus == rows_for(bar.focus_secs as int, max_total_secs as int, height as int),
        r.idle == rows_for(bar.idle_secs as int, max_total_secs as int, height as int),
        r.empty == if r.focus + r.idle >= height {
            0
        } else {
            height - (r.focus + r.idle)
        },
{
    let focus = rows(bar.focus_secs, max_total_secs, height);
    let idle = rows(bar.idle_secs, max_total_secs, height);
    let used: u32 = focus as u32 + idle as u32;
    let empty: u16 = if used >= height as u32 {
        0
    } else {
        (height as u32 - used) as u16
    };
    BarRows { empty, idle, focus }
}

/// Where a bar stands in a column `width` cells wide: it is at most 5
/// cells wide and centred, one cell further left where it cannot be.
pub fn centered_bar(width: u16) -> (r: (u16, u16))
    ensures
        r.1 == if width < 5 {
            width
        } else {
            5
        },
        r.0 == (width - r.1) / 2,
{
    let bar_width: u16 = if width < 5 {
        width
    } else {
        5
    };
    ((width - bar_width) / 2, bar_width)
}

} // verus!
