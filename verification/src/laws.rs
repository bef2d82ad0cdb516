//! What holds of the interval log under every sequence of samples.

use crate::models::{Interval, IntervalType};
use crate::time::Timestamp;
use crate::tracker::{
    absorb, after_sample, classify, is_gap, keep_valid, next_log, pruned, Sample, GAP_THRESHOLD_NANOS,
    RETENTION_NANOS,
};
use vstd::prelude::*;

verus! {

/// Whether no interval of `log` ends before it starts.
pub open spec fn all_valid(log: Seq<Interval>) -> bool {
    forall|i: int| 0 <= i < log.len() ==> (#[trigger] log[i]).is_valid()
}

/// Whether every interval of `log` is valid and none begins before the one
/// before it has ended.
pub open spec fn well_formed(log: Seq<Interval>) -> bool {
    &&& forall|i: int| 0 <= i < log.len() ==> (#[trigger] log[i]).is_valid()
    &&& forall|i: int, j: int|
        0 <= i < j < log.len() ==> (#[trigger] log[i]).end@ <= (#[trigger] log[j]).start@
}

/// Whether `log` is well formed and nothing in it ends after `by`.
pub open spec fn settled(log: Seq<Interval>, by: Timestamp) -> bool {
    &&& well_formed(log)
    &&& forall|i: int| 0 <= i < log.len() ==> (#[trigger] log[i]).end@ <= by@
}

/// The log after a tracker with the given threshold has taken the samples
/// in, in order.
pub open spec fn after_samples(log: Seq<Interval>, threshold_secs: nat, samples: Seq<Sample>) -> Seq<
    Interval,
>
    decreases samples.len(),
{
    if samples.len() == 0 {
        log
    } else {
        after_sample(after_samples(log, threshold_secs, samples.drop_last()), threshold_secs, samples.last())
    }
}

/// Whether no sample is earlier than the one before it.
pub open spec fn in_time_order(samples: Seq<Sample>) -> bool {
    forall|i: int, j: int|
        0 <= i < j < samples.len() ==> (#[trigger] samples[i]).now@ <= (#[trigger] samples[j]).now@
}

/// A well-formed log is sorted by start, and no two of its intervals
/// overlap.
pub proof fn lemma_well_formed_sorted(log: Seq<Interval>, i: int, j: int)
    requires
        well_formed(log),
        0 <= i < j < log.len(),
    ensures
        log[i].start@ <= log[j].start@,
        log[i].end@ <= log[j].start@,
{
}

/// A log of valid intervals loses nothing in the cleanup.
pub proof fn lemma_keep_valid_all(log: Seq<Interval>)
    requires
        all_valid(log),
    ensures
        keep_valid(log) == log,
    decreases log.len(),
{
    reveal(Seq::filter);
    if log.len() > 0 {
        lemma_keep_valid_all(log.drop_last());
    }
}

/// Dropping intervals from a settled log leaves it settled.
pub proof fn lemma_filter_settled(log: Seq<Interval>, keep: spec_fn(Interval) -> bool, by: Timestamp)
    requires
        settled(log, by),
    ensures
        settled(log.filter(keep), by),
    decreases log.len(),
{
    reveal(Seq::filter);
    if log.len() > 0 {
        lemma_filter_settled(log.drop_last(), keep, log.last().start);
    }
}

/// A sample taken no earlier than anything in a well-formed log ends
/// leaves the log well formed, and ending at the time of the sample.
///
/// A sample classified Idle reports a silence that is not negative.
pub proof fn lemma_next_log_well_formed(
    log: Seq<Interval>,
    kind: IntervalType,
    idle_secs: int,
    now: Timestamp,
)
    requires
        settled(log, now),
        kind == IntervalType::Idle ==> idle_secs >= 0,
    ensures
        settled(next_log(log, kind, idle_secs, now), now),
        next_log(log, kind, idle_secs, now).len() > 0,
        next_log(log, kind, idle_secs, now).last().end == now,
        next_log(log, kind, idle_secs, now).len() >= log.len(),
{
    if log.len() > 0 {
        lemma_keep_valid_all(absorb(log, kind, idle_secs, now));
    }
}

/// Pruning leaves a settled log settled.
pub proof fn lemma_pruned_well_formed(log: Seq<Interval>, clock: Timestamp, by: Timestamp)
    requires
        settled(log, by),
    ensures
        settled(pruned(log, clock), by),
{
    lemma_filter_settled(log, |iv: Interval| iv.end@ >= clock@ - RETENTION_NANOS, by);
}

/// Whatever the log held, after a sample none of its intervals ends before
/// it starts.
pub proof fn lemma_next_log_all_valid(log: Seq<Interval>, kind: IntervalType, idle_secs: int, now: Timestamp)
    ensures
        all_valid(next_log(log, kind, idle_secs, now)),
{
    let next = next_log(log, kind, idle_secs, now);
    if log.len() > 0 {
        let valid = |iv: Interval| iv.is_valid();
        assert forall|i: int| 0 <= i < next.len() implies (#[trigger] next[i]).is_valid() by {
            absorb(log, kind, idle_secs, now).lemma_filter_pred(valid, i);
        }
    }
}

/// A tracker that takes in a sample no earlier than anything in its
/// well-formed log ends, leaves the log well formed, with nothing in it
/// that ends after the sample.
pub proof fn lemma_sample_keeps_well_formed(log: Seq<Interval>, threshold_secs: nat, sample: Sample)
    requires
        settled(log, sample.now),
    ensures
        settled(after_sample(log, threshold_secs, sample), sample.now),
{
    let kind = classify(sample.idle_secs as int, threshold_secs as int);
    lemma_next_log_well_formed(log, kind, sample.idle_secs as int, sample.now);
    match sample.prune_clock {
        Some(clock) => {
            lemma_pruned_well_formed(
                next_log(log, kind, sample.idle_secs as int, sample.now),
                clock,
                sample.now,
            );
        },
        None => {},
    }
}

/// Samples taken in time order, none earlier than anything in the log
/// ends, leave a well-formed log well formed: sorted by start, with no two
/// intervals overlapping.
pub proof fn lemma_samples_keep_well_formed(
    log: Seq<Interval>,
    threshold_secs: nat,
    samples: Seq<Sample>,
)
    requires
        well_formed(log),
        in_time_order(samples),
        samples.len() > 0 ==> settled(log, samples[0].now),
    ensures
        well_formed(after_samples(log, threshold_secs, samples)),
        samples.len() > 0 ==> settled(after_samples(log, threshold_secs, samples), samples.last().now),
    decreases samples.len(),
{
    if samples.len() > 0 {
        let before = samples.drop_last();
        lemma_samples_keep_well_formed(log, threshold_secs, before);
        lemma_sample_keeps_well_formed(after_samples(log, threshold_secs, before), threshold_secs, samples.last());
    }
}

/// A log that begins empty and takes in samples in time order is sorted by
/// start, and no two of its intervals overlap.
pub proof fn lemma_log_stays_sorted(threshold_secs: nat, samples: Seq<Sample>, i: int, j: int)
    requires
        in_time_order(samples),
        0 <= i < j < after_samples(Seq::empty(), threshold_secs, samples).len(),
    ensures
        ({
            let log = after_samples(Seq::empty(), threshold_secs, samples);
            &&& log[i].start@ <= log[j].start@
            &&& log[i].end@ <= log[j].start@
            &&& log[i].is_valid()
            &&& log[j].is_valid()
        }),
{
    lemma_samples_keep_well_formed(Seq::empty(), threshold_secs, samples);
}

/// A sample of the same kind as the last interval, within the gap
/// threshold, only moves the end of that interval: the log keeps its
/// length and everything else in it.
///
/// This is said of logs of valid intervals and of samples not earlier than
/// the start of the last interval: the cleanup drops what is not valid.
pub proof fn lemma_continuation_extends(
    log: Seq<Interval>,
    kind: IntervalType,
    idle_secs: int,
    now: Timestamp,
)
    requires
        log.len() > 0,
        all_valid(log),
        log.last().kind == kind,
        !is_gap(log.last().end, now),
        log.last().start@ <= now@,
    ensures
        next_log(log, kind, idle_secs, now) == log.update(
            log.len() - 1,
            Interval { start: log.last().start, end: now, kind },
        ),
        next_log(log, kind, idle_secs, now).len() == log.len(),
{
    lemma_keep_valid_all(absorb(log, kind, idle_secs, now));
}

/// A sample that comes more than the gap threshold after the end of the
/// last interval appends a zero-length interval of its kind, whatever the
/// kind of the last interval.
pub proof fn lemma_gap_appends(log: Seq<Interval>, kind: IntervalType, idle_secs: int, now: Timestamp)
    requires
        log.len() > 0,
        now@ > log.last().end@ + GAP_THRESHOLD_NANOS,
    ensures
        next_log(log, kind, idle_secs, now) == keep_valid(log).push(Interval::starting(kind, now)),
        all_valid(log) ==> next_log(log, kind, idle_secs, now) == log.push(
            Interval::starting(kind, now),
        ),
{
    log.lemma_filter_push(Interval::starting(kind, now), |iv: Interval| iv.is_valid());
    if all_valid(log) {
        lemma_keep_valid_all(log);
    }
}

/// A Focus sample after an Idle interval, within the gap threshold, closes
/// that interval at the time of the sample and opens a Focus interval
/// there: the two are never merged.
///
/// This is said of samples not earlier than the start of the Idle
/// interval: closed before its start, it would not be valid and the
/// cleanup would drop it.
pub proof fn lemma_idle_to_focus_opens(log: Seq<Interval>, idle_secs: int, now: Timestamp)
    requires
        log.len() > 0,
        log.last().kind == IntervalType::Idle,
        !is_gap(log.last().end, now),
        log.last().start@ <= now@,
    ensures
        next_log(log, IntervalType::Focus, idle_secs, now) == keep_valid(log.drop_last()).push(
            Interval { start: log.last().start, end: now, kind: IntervalType::Idle },
        ).push(Interval::starting(IntervalType::Focus, now)),
{
    let valid = |iv: Interval| iv.is_valid();
    let closed = Interval { start: log.last().start, end: now, kind: IntervalType::Idle };
    let opened = Interval::starting(IntervalType::Focus, now);
    log.drop_last().lemma_filter_push(closed, valid);
    log.drop_last().push(closed).lemma_filter_push(opened, valid);
}

/// An Idle sample after a Focus interval, within the gap threshold, whose
/// silence began at or before the start of that interval turns the whole
/// interval Idle, ending at the time of the sample.
///
/// This is said of logs of valid intervals and of samples not earlier than
/// the start of the last interval.
pub proof fn lemma_backdated_whole(log: Seq<Interval>, idle_secs: int, now: Timestamp)
    requires
        log.len() > 0,
        all_valid(log),
        log.last().kind == IntervalType::Focus,
        !is_gap(log.last().end, now),
        now.spec_sub_secs(idle_secs)@ <= log.last().start@ <= now@,
    ensures
        next_log(log, IntervalType::Idle, idle_secs, now) == log.update(
            log.len() - 1,
            Interval { start: log.last().start, end: now, kind: IntervalType::Idle },
        ),
{
    lemma_keep_valid_all(absorb(log, IntervalType::Idle, idle_secs, now));
}

/// An Idle sample after a Focus interval, within the gap threshold, whose
/// silence began after the start of that interval cuts the interval where
/// the silence began and appends an Idle interval from there to the time
/// of the sample.
///
/// This is said of logs of valid intervals and of a silence that is not
/// negative.
pub proof fn lemma_backdated_split(log: Seq<Interval>, idle_secs: int, now: Timestamp)
    requires
        log.len() > 0,
        all_valid(log),
        log.last().kind == IntervalType::Focus,
        !is_gap(log.last().end, now),
        idle_secs >= 0,
        log.last().start@ < now.spec_sub_secs(idle_secs)@,
    ensures
        next_log(log, IntervalType::Idle, idle_secs, now) == log.update(
            log.len() - 1,
            Interval {
                start: log.last().start,
                end: now.spec_sub_secs(idle_secs),
                kind: IntervalType::Focus,
            },
        ).push(
            Interval { start: now.spec_sub_secs(idle_secs), end: now, kind: IntervalType::Idle },
        ),
{
    lemma_keep_valid_all(absorb(log, IntervalType::Idle, idle_secs, now));
}

/// Pruning keeps an interval exactly when it ended no longer than the
/// retention period before the reading of the clock.
pub proof fn lemma_pruned_keeps(log: Seq<Interval>, clock: Timestamp, iv: Interval)
    ensures
        pruned(log, clock).contains(iv) <==> log.contains(iv) && iv.end@ >= clock@
            - RETENTION_NANOS,
{
    let keep = |iv: Interval| iv.end@ >= clock@ - RETENTION_NANOS;
    if pruned(log, clock).contains(iv) {
        let i = choose|i: int| 0 <= i < log.filter(keep).len() && log.filter(keep)[i] == iv;
        log.lemma_filter_pred(keep, i);
        log.lemma_filter_contains_rev(keep, iv);
    }
    if log.contains(iv) && keep(iv) {
        let i = choose|i: int| 0 <= i < log.len() && log[i] == iv;
        log.lemma_filter_contains(keep, i);
    }
}

} // verus!
