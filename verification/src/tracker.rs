//! The interval state machine: how each idle-time sample changes the log.

use crate::clock;
use crate::models::{Database, Interval, IntervalType};
use crate::parse::{duration_of, parse_duration, parse_time_of_day, time_of_day_of, SpanError};
use crate::storage::Storage;
use crate::time::{Duration, TimeOfDay, Timestamp};
use vstd::prelude::*;

verus! {

/// A sample that arrives more than this long after the end of the last
/// interval starts a new interval: the sampling itself had stalled.
pub const GAP_THRESHOLD_NANOS: i64 = 10_000_000_000;

/// The log is saved when this much time has passed since the last save.
pub const SAVE_PERIOD_NANOS: i64 = 30_000_000_000;

/// Intervals that ended longer ago than this are pruned: 30 days. One that
/// ended exactly this long ago stays.
pub const RETENTION_NANOS: i64 = 2_592_000_000_000_000;

/// A tracking run: the log and what the run remembers between samples.
pub struct Tracker {
    pub storage: Storage,
    /// Input silence of at least this many seconds counts as Idle.
    pub threshold_secs: u64,
    pub db: Database,
    /// The classification of the last sample, if any was taken.
    pub last_kind_seen: Option<IntervalType>,
    /// When the classification last changed.
    pub state_start: Timestamp,
    pub last_save: Timestamp,
    /// The local time of day before which nothing is tracked.
    pub start_time: Option<TimeOfDay>,
    /// The local time of day from which on the run is over.
    pub end_time: Option<TimeOfDay>,
    /// The longest the run may last.
    pub duration: Option<Duration>,
    pub run_start_time: Timestamp,
    pub session_ended_saved: bool,
}

/// Whether the log should be saved after a sample, and why.
#[derive(Debug, Clone, Copy, PartialEq, Eq, Structural)]
pub enum SaveDue {
    /// Nothing needs saving yet.
    No,
    /// The classification changed.
    OnTransition,
    /// The save period has passed since the last save.
    Periodic,
}

/// Why a tracking run could not be set up.
#[derive(Debug, Clone, Copy, PartialEq, Eq, Structural)]
pub enum TrackerError {
    /// The start time is not a time of day written as hours and minutes.
    InvalidStartTime,
    /// The end time is not a time of day written as hours and minutes.
    InvalidEndTime,
    /// The duration is not a span written as numbers with units.
    InvalidDuration,
    /// The duration is longer than can be held.
    DurationOutOfRange,
    /// The duration is written with more digits than a span may hold.
    DurationTooManyDigits,
    /// The threshold, counted in seconds, does not fit in 64 bits.
    ThresholdOutOfRange,
}

/// One sample: at `now` the input had been silent for `idle_secs` seconds.
/// Where the sample brought a periodic save with it, `prune_clock` is what
/// the clock read when the log was pruned for it.
pub struct Sample {
    pub idle_secs: i64,
    pub now: Timestamp,
    pub prune_clock: Option<Timestamp>,
}

/// The intervals of `log` that do not end before they start, in order.
pub open spec fn keep_valid(log: Seq<Interval>) -> Seq<Interval> {
    log.filter(|iv: Interval| iv.is_valid())
}

/// Whether a sample at `now` comes too long after an interval that ended at
/// `last_end` to continue it.
pub open spec fn is_gap(last_end: Timestamp, now: Timestamp) -> bool {
    now@ - last_end@ > GAP_THRESHOLD_NANOS
}

/// A non-empty `log` with a sample of `kind` at `now` taken in, reported
/// after `idle_secs` seconds without input.
///
/// After a gap the log gains a zero-length interval at `now`. Otherwise the
/// same kind extends the last interval to `now`. Idle after Focus is
/// backdated to the moment the input stopped: when that lies at or before
/// the start of the last interval, the whole interval becomes Idle; when it
/// lies after, the interval is cut there and an Idle interval follows. Focus
/// after Idle closes the last interval at `now` and opens a Focus interval.
pub open spec fn absorb(log: Seq<Interval>, kind: IntervalType, idle_secs: int, now: Timestamp) -> Seq<
    Interval,
>
    recommends
        log.len() > 0,
{
    let last = log.last();
    let earlier = log.drop_last();
    if is_gap(last.end, now) {
        log.push(Interval::starting(kind, now))
    } else if last.kind == kind {
        earlier.push(Interval { start: last.start, end: now, kind })
    } else if kind == IntervalType::Idle {
        let onset = now.spec_sub_secs(idle_secs);
        if onset@ <= last.start@ {
            earlier.push(Interval { start: last.start, end: now, kind: IntervalType::Idle })
        } else {
            earlier.push(Interval { start: last.start, end: onset, kind: last.kind }).push(
                Interval { start: onset, end: now, kind: IntervalType::Idle },
            )
        }
    } else {
        earlier.push(Interval { start: last.start, end: now, kind: last.kind }).push(
            Interval::starting(IntervalType::Focus, now),
        )
    }
}

/// The log after a sample of `kind` at `now`, reported after `idle_secs`
/// seconds without input.
///
/// An empty log gains a zero-length interval at `now`. A log that is not
/// empty takes the sample in, and the intervals that end before they start
/// are dropped from it.
pub open spec fn next_log(log: Seq<Interval>, kind: IntervalType, idle_secs: int, now: Timestamp) -> Seq<
    Interval,
> {
    if log.len() == 0 {
        log.push(Interval::starting(kind, now))
    } else {
        keep_valid(absorb(log, kind, idle_secs, now))
    }
}

/// Whether `local` can be the local time of day at `now`: in every time
/// zone it lies within the day, and its nanoseconds past the second are
/// those of `now`.
pub open spec fn is_local_time(now: Timestamp, local: TimeOfDay) -> bool {
    local.secs < 86_400 && local.frac == now@ % 1_000_000_000
}

/// How a sample is classified: Idle when the input has been silent for at
/// least the threshold, Focus otherwise.
pub open spec fn classify(idle_secs: int, threshold_secs: int) -> IntervalType {
    if idle_secs >= threshold_secs {
        IntervalType::Idle
    } else {
        IntervalType::Focus
    }
}

/// The intervals of `log` that ended no longer than the retention period
/// before `now`, in order.
pub open spec fn pruned(log: Seq<Interval>, now: Timestamp) -> Seq<Interval> {
    log.filter(|iv: Interval| iv.end@ >= now@ - RETENTION_NANOS)
}

/// What reading a time-of-day setting gave: `None` where the setting was
/// not given.
pub open spec fn given_time(text: Option<String>) -> Option<Option<TimeOfDay>> {
    match text {
        Some(text) => Some(time_of_day_of(text@)),
        None => None,
    }
}

/// What reading a duration setting gave: `None` where the setting was not
/// given.
pub open spec fn given_span(text: Option<String>) -> Option<Result<Duration, SpanError>> {
    match text {
        Some(text) => Some(duration_of(text@)),
        None => None,
    }
}

/// The log after a tracker with the given threshold has taken `sample` in.
pub open spec fn after_sample(log: Seq<Interval>, threshold_secs: nat, sample: Sample) -> Seq<Interval> {
    let next = next_log(
        log,
        classify(sample.idle_secs as int, threshold_secs as int),
        sample.idle_secs as int,
        sample.now,
    );
    match sample.prune_clock {
        Some(clock) => pruned(next, clock),
        None => next,
    }
}

/// Removes from `log` the intervals that end before they start.
fn drop_invalid(log: &mut Vec<Interval>)
    ensures
        final(log)@ == keep_valid(old(log)@),
{
    let mut kept: Vec<Interval> = Vec::new();
    let n = log.len();
    let mut i: usize = 0;
    proof {
        reveal(Seq::filter);
    }
    while i < n
        invariant
            i <= n,
            n == log.len(),
            kept@ == keep_valid(log@.take(i as int)),
        decreases n - i,
    {
        let iv = log[i];
        proof {
            let pred = |iv: Interval| iv.is_valid();
            log@.take(i as int).lemma_filter_push(iv, pred);
            assert(log@.take(i as int).push(iv) == log@.take(i as int + 1));
        }
        if iv.start.nanos <= iv.end.nanos {
            kept.push(iv);
        }
        i += 1;
    }
    assert(log@.take(n as int) == log@);
    *log = kept;
}

/// Removes from `log` the intervals that ended longer than the retention
/// period before `now`.
fn drop_expired(log: &mut Vec<Interval>, now: Timestamp)
    ensures
        final(log)@ == pruned(old(log)@, now),
{
    let mut kept: Vec<Interval> = Vec::new();
    let n = log.len();
    let mut i: usize = 0;
    proof {
        reveal(Seq::filter);
    }
    while i < n
        invariant
            i <= n,
            n == log.len(),
            kept@ == pruned(log@.take(i as int), now),
        decreases n - i,
    {
        let iv = log[i];
        proof {
            let pred = |iv: Interval| iv.end@ >= now@ - RETENTION_NANOS;
            log@.take(i as int).lemma_filter_push(iv, pred);
            assert(log@.take(i as int).push(iv) == log@.take(i as int + 1));
        }
        if (iv.end.nanos as i128) >= (now.nanos as i128) - (RETENTION_NANOS as i128) {
            kept.push(iv);
        }
        i += 1;
    }
    assert(log@.take(n as int) == log@);
    *log = kept;
}

impl Tracker {
    /// Takes a sample of `current_kind` at `now`, reported after `idle_secs`
    /// seconds without input, into the log.
    pub fn update_db(&mut self, current_kind: IntervalType, idle_secs: i64, now: Timestamp)
        ensures
            final(self).db@ == next_log(old(self).db@, current_kind, idle_secs as int, now),
            *final(self) == (Tracker { db: final(self).db, ..*old(self) }),
    {
        let n = self.db.intervals.len();
        if n == 0 {
            self.db.intervals.push(Interval::new_at(current_kind, now));
            return ;
        }
        let last_idx = n - 1;
        let last = self.db.intervals[last_idx];
        let ghost before = self.db.intervals@;
        if (now.nanos as i128) - (last.end.nanos as i128) > GAP_THRESHOLD_NANOS as i128 {
            self.db.intervals.push(Interval::new_at(current_kind, now));
        } else if last.kind == current_kind {
            self.db.intervals.set(last_idx, Interval { start: last.start, end: now, kind: current_kind });
        } else {
            match current_kind {
                IntervalType::Idle => {
                    let onset = now.saturating_sub_secs(idle_secs);
                    if onset.nanos <= last.start.nanos {
                        self.db.intervals.set(
                            last_idx,
                            Interval { start: last.start, end: now, kind: IntervalType::Idle },
                        );
                    } else {
                        self.db.intervals.set(
                            last_idx,
                            Interval { start: last.start, end: onset, kind: last.kind },
                        );
                        self.db.intervals.push(
                            Interval { start: onset, end: now, kind: IntervalType::Idle },
                        );
                    }
                },
                IntervalType::Focus => {
                    self.db.intervals.set(
                        last_idx,
                        Interval { start: last.start, end: now, kind: last.kind },
                    );
                    self.db.intervals.push(Interval::new_at(IntervalType::Focus, now));
                },
            }
        }
        assert(self.db.intervals@ == absorb(before, current_kind, idle_secs as int, now));
        drop_invalid(&mut self.db.intervals);
    }

    /// Drops the intervals that ended longer than the retention period
    /// before `now`.
    pub fn prune_at(&mut self, now: Timestamp)
        ensures
            final(self).db@ == pruned(old(self).db@, now),
            *final(self) == (Tracker { db: final(self).db, ..*old(self) }),
    {
        drop_expired(&mut self.db.intervals, now);
    }

    /// Drops the intervals that ended longer than the retention period
    /// before the current time, whatever the clock reads: it reads no time
    /// before 1970.
    pub fn prune_old_data(&mut self)
        ensures
            exists|clock: Timestamp|
                clock@ >= 0 && final(self).db@ == #[trigger] pruned(old(self).db@, clock),
            *final(self) == (Tracker { db: final(self).db, ..*old(self) }),
    {
        let clock = clock::now();
        self.prune_at(clock);
    }

    /// Empties the log. The caller persists the emptied log.
    pub fn reset(&mut self)
        ensures
            final(self).db@ == Seq::<Interval>::empty(),
            *final(self) == (Tracker { db: final(self).db, ..*old(self) }),
    {
        self.db.intervals.clear();
    }

    /// Records that the log was saved at `now`.
    pub fn mark_saved(&mut self, now: Timestamp)
        ensures
            *final(self) == (Tracker { last_save: now, ..*old(self) }),
    {
        self.last_save = now;
    }

    /// The classification of a sample taken after `idle_secs` seconds
    /// without input.
    pub fn classify_sample(&self, idle_secs: i64) -> (kind: IntervalType)
        ensures
            kind == classify(idle_secs as int, self.threshold_secs as int),
    {
        if idle_secs >= 0 && idle_secs as u64 >= self.threshold_secs {
            IntervalType::Idle
        } else {
            IntervalType::Focus
        }
    }

    /// Whether a save is due after a sample of `kind` at `now`: at once when
    /// the classification changed, else when the save period has passed
    /// since the last save.
    pub open spec fn save_due(&self, kind: IntervalType, now: Timestamp) -> SaveDue {
        if self.last_kind_seen != Some(kind) {
            SaveDue::OnTransition
        } else if now@ - self.last_save@ > SAVE_PERIOD_NANOS {
            SaveDue::Periodic
        } else {
            SaveDue::No
        }
    }

    /// Takes one sample: the input has been silent for `idle_secs` seconds
    /// at `now`.
    ///
    /// The sample is classified and taken into the log. A change of
    /// classification restarts `state_start`. Before a periodic save the log
    /// is pruned against the current time, whatever the clock reads: it
    /// reads no time before 1970. The
    /// caller saves the log when the result asks for it, and calls
    /// [`Tracker::mark_saved`] once that has succeeded.
    pub fn tick(&mut self, idle_secs: i64, now: Timestamp) -> (due: SaveDue)
        ensures
            due == old(self).save_due(classify(idle_secs as int, old(self).threshold_secs as int), now),
            exists|prune_clock: Option<Timestamp>|
                (prune_clock is Some <==> due == SaveDue::Periodic) && (prune_clock matches Some(
                    clock,
                ) ==> clock@ >= 0) && final(self).db@ == #[trigger] after_sample(
                    old(self).db@,
                    old(self).threshold_secs as nat,
                    Sample { idle_secs, now, prune_clock },
                ),
            *final(self) == (Tracker {
                db: final(self).db,
                last_kind_seen: Some(classify(idle_secs as int, old(self).threshold_secs as int)),
                state_start: if due == SaveDue::OnTransition {
                    now
                } else {
                    old(self).state_start
                },
                ..*old(self)
            }),
    {
        let kind = self.classify_sample(idle_secs);
        self.update_db(kind, idle_secs, now);
        let changed = match self.last_kind_seen {
            Some(seen) => seen != kind,
            None => true,
        };
        let ghost threshold = self.threshold_secs as nat;
        let ghost taken = self.db@;
        if changed {
            self.state_start = now;
            self.last_kind_seen = Some(kind);
            assert(taken == after_sample(
                old(self).db@,
                threshold,
                Sample { idle_secs, now, prune_clock: None },
            ));
            SaveDue::OnTransition
        } else if (now.nanos as i128) - (self.last_save.nanos as i128) > SAVE_PERIOD_NANOS as i128 {
            self.prune_old_data();
            proof {
                let clock = choose|clock: Timestamp|
                    clock@ >= 0 && self.db@ == #[trigger] pruned(taken, clock);
                assert(self.db@ == after_sample(
                    old(self).db@,
                    threshold,
                    Sample { idle_secs, now, prune_clock: Some(clock) },
                ));
            }
            SaveDue::Periodic
        } else {
            assert(taken == after_sample(
                old(self).db@,
                threshold,
                Sample { idle_secs, now, prune_clock: None },
            ));
            SaveDue::No
        }
    }

    /// Whether samples are taken at local time `local`: always when the run
    /// has a duration, else from the start time on.
    pub open spec fn tracks_at(&self, local: TimeOfDay) -> bool {
        self.duration is Some || match self.start_time {
            Some(start) => !local.precedes(start),
            None => true,
        }
    }

    /// Whether samples are taken when the local clock shows `local`.
    pub fn should_track_at(&self, local: TimeOfDay) -> (r: bool)
        ensures
            r == self.tracks_at(local),
    {
        if self.duration.is_some() {
            return true;
        }
        match self.start_time {
            Some(start) => !local.is_before(start),
            None => true,
        }
    }

    /// Whether samples are taken at `now`. Where the answer depends on the
    /// local time of day, it holds for what the machine's time zone makes
    /// of `now`: a time of day that differs from the one in UTC by whole
    /// seconds.
    pub fn should_track(&self, now: Timestamp) -> (r: bool)
        ensures
            self.duration is Some || self.start_time is None ==> r,
            exists|local: TimeOfDay| is_local_time(now, local) && r == #[trigger] self.tracks_at(local),
    {
        let ghost midnight = TimeOfDay { secs: 0, frac: (now@ % 1_000_000_000) as u32 };
        if self.duration.is_some() {
            assert(is_local_time(now, midnight) && self.tracks_at(midnight));
            return true;
        }
        match self.start_time {
            Some(_) => {
                let local = clock::local_time(now);
                self.should_track_at(local)
            },
            None => {
                assert(is_local_time(now, midnight) && self.tracks_at(midnight));
                true
            },
        }
    }

    /// Whether the run is over at `now`, when the local clock shows `local`:
    /// a run with a duration is over once it has lasted that long; one with
    /// an end time only, once the local clock has reached it.
    pub open spec fn stops_at(&self, now: Timestamp, local: TimeOfDay) -> bool {
        match self.duration {
            Some(d) => now@ - self.run_start_time@ >= d@,
            None => match self.end_time {
                Some(end) => !local.precedes(end),
                None => false,
            },
        }
    }

    /// Whether the run is over at `now`, when the local clock shows `local`.
    pub fn should_stop_at(&self, now: Timestamp, local: TimeOfDay) -> (r: bool)
        ensures
            r == self.stops_at(now, local),
    {
        match self.duration {
            Some(d) => !now.duration_since(self.run_start_time).is_shorter_than(d),
            None => match self.end_time {
                Some(end) => !local.is_before(end),
                None => false,
            },
        }
    }

    /// Whether the run is over at `now`. Where the answer depends on the
    /// local time of day, it holds for what the machine's time zone makes
    /// of `now`: a time of day that differs from the one in UTC by whole
    /// seconds.
    pub fn should_stop(&self, now: Timestamp) -> (r: bool)
        ensures
            self.duration matches Some(d) ==> r == (now@ - self.run_start_time@ >= d@),
            self.duration is None && self.end_time is None ==> !r,
            exists|local: TimeOfDay|
                is_local_time(now, local) && r == #[trigger] self.stops_at(now, local),
    {
        if self.duration.is_none() && self.end_time.is_some() {
            let local = clock::local_time(now);
            self.should_stop_at(now, local)
        } else {
            let ghost midnight = TimeOfDay { secs: 0, frac: (now@ % 1_000_000_000) as u32 };
            let r = self.should_stop_at(now, TimeOfDay { secs: 0, frac: 0 });
            assert(is_local_time(now, midnight) && r == self.stops_at(now, midnight));
            r
        }
    }

    /// The first fault in what a run is set up with, if there is one: a
    /// start time, an end time or a duration that was given and could not be
    /// read, or a threshold whose seconds do not fit.
    pub open spec fn setup_error(
        threshold_mins: u64,
        start_time: Option<Option<TimeOfDay>>,
        end_time: Option<Option<TimeOfDay>>,
        duration: Option<Result<Duration, SpanError>>,
    ) -> Option<TrackerError> {
        if start_time == Some(None::<TimeOfDay>) {
            Some(TrackerError::InvalidStartTime)
        } else if end_time == Some(None::<TimeOfDay>) {
            Some(TrackerError::InvalidEndTime)
        } else if duration == Some(Err::<Duration, SpanError>(SpanError::Malformed)) {
            Some(TrackerError::InvalidDuration)
        } else if duration == Some(Err::<Duration, SpanError>(SpanError::OutOfRange)) {
            Some(TrackerError::DurationOutOfRange)
        } else if duration == Some(Err::<Duration, SpanError>(SpanError::TooManyDigits)) {
            Some(TrackerError::DurationTooManyDigits)
        } else if threshold_mins * 60 > u64::MAX {
            Some(TrackerError::ThresholdOutOfRange)
        } else {
            None
        }
    }

    /// The run that starts at `now` over the log `db`, with nothing sampled
    /// yet.
    pub open spec fn initial(
        storage: Storage,
        db: Database,
        threshold_mins: u64,
        start_time: Option<Option<TimeOfDay>>,
        end_time: Option<Option<TimeOfDay>>,
        duration: Option<Result<Duration, SpanError>>,
        now: Timestamp,
    ) -> Tracker {
        Tracker {
            storage,
            threshold_secs: (threshold_mins * 60) as u64,
            db,
            last_kind_seen: None,
            state_start: now,
            last_save: now,
            start_time: match start_time {
                Some(t) => t,
                None => None,
            },
            end_time: match end_time {
                Some(t) => t,
                None => None,
            },
            duration: match duration {
                Some(Ok(d)) => Some(d),
                _ => None,
            },
            run_start_time: now,
            session_ended_saved: false,
        }
    }

    /// Sets up a run that starts at `now` over the log `db`.
    ///
    /// Each of `start_time`, `end_time` and `duration` is `None` where the
    /// setting was not given, and holds what reading it gave where it was.
    pub fn started_at(
        storage: Storage,
        db: Database,
        threshold_mins: u64,
        start_time: Option<Option<TimeOfDay>>,
        end_time: Option<Option<TimeOfDay>>,
        duration: Option<Result<Duration, SpanError>>,
        now: Timestamp,
    ) -> (r: Result<Tracker, TrackerError>)
        ensures
            match r {
                Err(e) => Tracker::setup_error(threshold_mins, start_time, end_time, duration)
                    == Some(e),
                Ok(t) => Tracker::setup_error(threshold_mins, start_time, end_time, duration)
                    is None && t == Tracker::initial(
                    storage,
                    db,
                    threshold_mins,
                    start_time,
                    end_time,
                    duration,
                    now,
                ),
            },
    {
        let start = match start_time {
            Some(None) => {
                return Err(TrackerError::InvalidStartTime);
            },
            Some(Some(t)) => Some(t),
            None => None,
        };
        let end = match end_time {
            Some(None) => {
                return Err(TrackerError::InvalidEndTime);
            },
            Some(Some(t)) => Some(t),
            None => None,
        };
        let span = match duration {
            Some(Err(SpanError::Malformed)) => {
                return Err(TrackerError::InvalidDuration);
            },
            Some(Err(SpanError::OutOfRange)) => {
                return Err(TrackerError::DurationOutOfRange);
            },
            Some(Err(SpanError::TooManyDigits)) => {
                return Err(TrackerError::DurationTooManyDigits);
            },
            Some(Ok(d)) => Some(d),
            None => None,
        };
        let threshold_secs = match threshold_mins.checked_mul(60) {
            Some(secs) => secs,
            None => {
                return Err(TrackerError::ThresholdOutOfRange);
            },
        };
        Ok(
            Tracker {
                storage,
                threshold_secs,
                db,
                last_kind_seen: None,
                state_start: now,
                last_save: now,
                start_time: start,
                end_time: end,
                duration: span,
                run_start_time: now,
                session_ended_saved: false,
            },
        )
    }

    /// Whether `t` is the run that started at `now` over `db` as it was
    /// pruned when the clock read `clock`, neither reading being before
    /// 1970.
    pub open spec fn launched(
        t: Tracker,
        storage: Storage,
        db: Database,
        threshold_mins: u64,
        start_time: Option<Option<TimeOfDay>>,
        end_time: Option<Option<TimeOfDay>>,
        duration: Option<Result<Duration, SpanError>>,
        now: Timestamp,
        clock: Timestamp,
    ) -> bool {
        &&& now@ >= 0
        &&& clock@ >= 0
        &&& t.db@ == pruned(db@, clock)
        &&& t == Tracker {
            db: t.db,
            ..Tracker::initial(storage, db, threshold_mins, start_time, end_time, duration, now)
        }
    }

    /// Sets up a run over the log `db` that starts now, whatever the clock
    /// reads after 1970, and prunes the log.
    ///
    /// `start_time` and `end_time` are local times of day written as hours
    /// and minutes; `duration` is a span written as numbers with units.
    pub fn new(
        storage: Storage,
        db: Database,
        threshold_mins: u64,
        start_time: Option<String>,
        end_time: Option<String>,
        duration: Option<String>,
    ) -> (r: Result<Tracker, TrackerError>)
        ensures
            match r {
                Err(e) => Tracker::setup_error(
                    threshold_mins,
                    given_time(start_time),
                    given_time(end_time),
                    given_span(duration),
                ) == Some(e),
                Ok(t) => Tracker::setup_error(
                    threshold_mins,
                    given_time(start_time),
                    given_time(end_time),
                    given_span(duration),
                ) is None && exists|now: Timestamp, clock: Timestamp| #[trigger]
                    Tracker::launched(
                        t,
                        storage,
                        db,
                        threshold_mins,
                        given_time(start_time),
                        given_time(end_time),
                        given_span(duration),
                        now,
                        clock,
                    ),
            },
    {
        let now = clock::now();
        let start = match &start_time {
            Some(text) => Some(parse_time_of_day(text.as_str())),
            None => None,
        };
        let end = match &end_time {
            Some(text) => Some(parse_time_of_day(text.as_str())),
            None => None,
        };
        let span = match &duration {
            Some(text) => Some(parse_duration(text.as_str())),
            None => None,
        };
        let ghost before = db;
        match Tracker::started_at(storage, db, threshold_mins, start, end, span, now) {
            Err(e) => Err(e),
            Ok(mut tracker) => {
                tracker.prune_old_data();
                proof {
                    let clock = choose|clock: Timestamp|
                        clock@ >= 0 && tracker.db@ == #[trigger] pruned(before@, clock);
                    assert(Tracker::launched(
                        tracker,
                        storage,
                        before,
                        threshold_mins,
                        given_time(start_time),
                        given_time(end_time),
                        given_span(duration),
                        now,
                        clock,
                    ));
                }
                Ok(tracker)
            },
        }
    }
}

} // verus!
