use neflo::models::{Database, Interval, IntervalType};
use neflo::storage::Storage;
use neflo::time::Timestamp;
use neflo::tracker::Tracker;
use std::path::PathBuf;

fn tracker() -> Tracker {
    Tracker::new(Storage::from_path(PathBuf::from("dummy")), Database::default(), 5, None, None, None).unwrap()
}

fn at(secs: i64) -> Timestamp {
    Timestamp::from_secs(1_700_000_000 + secs)
}

fn assert_well_formed(log: &[Interval]) {
    for iv in log {
        assert!(iv.start.nanos <= iv.end.nanos);
    }
    for pair in log.windows(2) {
        assert!(pair[0].start.nanos <= pair[1].start.nanos);
        assert!(pair[0].end.nanos <= pair[1].start.nanos);
    }
}

#[test]
fn samples_in_time_order_keep_the_log_sorted_and_disjoint() {
    let mut t = tracker();
    // (seconds since the start, seconds of silence)
    let samples: [(i64, i64); 14] = [
        (0, 0),
        (1, 1),
        (5, 0),
        (9, 4),
        (12, 400),
        (13, 401),
        (20, 0),
        (25, 310),
        (26, 0),
        (27, 300),
        (100, 373),
        (101, 0),
        (102, 0),
        (400, 300),
    ];
    for (now, idle) in samples {
        t.tick(idle, at(now));
        assert_well_formed(&t.db.intervals);
        assert_eq!(t.db.intervals.last().unwrap().end, at(now));
    }
    assert_eq!(t.db.intervals.len(), 6);
}

#[test]
fn the_same_kind_only_moves_the_end() {
    let mut t = tracker();
    t.update_db(IntervalType::Idle, 300, at(0));
    t.update_db(IntervalType::Focus, 0, at(5));
    let before = t.db.intervals.clone();
    for step in 1..=20 {
        t.update_db(IntervalType::Focus, 0, at(5 + step * 10));
        assert_eq!(t.db.intervals.len(), before.len());
        assert_eq!(t.db.intervals[0], before[0]);
        assert_eq!(t.db.intervals[1].start, before[1].start);
        assert_eq!(t.db.intervals[1].kind, IntervalType::Focus);
        assert_eq!(t.db.intervals[1].end, at(5 + step * 10));
    }
}

#[test]
fn a_gap_appends_whatever_the_kind() {
    for (first, second) in [
        (IntervalType::Focus, IntervalType::Focus),
        (IntervalType::Focus, IntervalType::Idle),
        (IntervalType::Idle, IntervalType::Focus),
        (IntervalType::Idle, IntervalType::Idle),
    ] {
        let mut t = tracker();
        t.update_db(first, 0, at(0));
        // exactly the threshold is no gap yet
        t.update_db(first, 0, at(10));
        assert_eq!(t.db.intervals.len(), 1);
        t.update_db(second, 5, Timestamp::from_nanos(at(20).nanos + 1));
        assert_eq!(t.db.intervals.len(), 2);
        assert_eq!(t.db.intervals[0], Interval { start: at(0), end: at(10), kind: first });
        let now = Timestamp::from_nanos(at(20).nanos + 1);
        assert_eq!(t.db.intervals[1], Interval { start: now, end: now, kind: second });
    }
}

#[test]
fn backdating_to_the_start_turns_the_interval_idle() {
    let mut t = tracker();
    for step in 0..=60 {
        t.update_db(IntervalType::Focus, 0, at(step * 5));
    }
    // the silence began exactly when the interval did
    t.update_db(IntervalType::Idle, 300, at(300));
    assert_eq!(t.db.intervals, vec![Interval { start: at(0), end: at(300), kind: IntervalType::Idle }]);
}

#[test]
fn backdating_past_the_start_splits_the_interval() {
    let mut t = tracker();
    for step in 0..=120 {
        t.update_db(IntervalType::Focus, 0, at(step * 5));
    }
    t.update_db(IntervalType::Idle, 300, at(600));
    assert_eq!(
        t.db.intervals,
        vec![
            Interval { start: at(0), end: at(300), kind: IntervalType::Focus },
            Interval { start: at(300), end: at(600), kind: IntervalType::Idle },
        ]
    );
}

#[test]
fn backdating_stops_at_the_earliest_instant() {
    let mut t = tracker();
    t.update_db(IntervalType::Focus, 0, at(0));
    t.update_db(IntervalType::Idle, i64::MAX, at(5));
    assert_eq!(t.db.intervals, vec![Interval { start: at(0), end: at(5), kind: IntervalType::Idle }]);
}

#[test]
fn focus_after_idle_is_never_merged() {
    let mut t = tracker();
    t.update_db(IntervalType::Idle, 300, at(0));
    t.update_db(IntervalType::Idle, 305, at(5));
    t.update_db(IntervalType::Focus, 0, at(8));
    assert_eq!(
        t.db.intervals,
        vec![
            Interval { start: at(0), end: at(8), kind: IntervalType::Idle },
            Interval { start: at(8), end: at(8), kind: IntervalType::Focus },
        ]
    );
}

#[test]
fn intervals_that_end_before_they_start_are_dropped() {
    let mut t = tracker();
    t.db.intervals.push(Interval { start: at(50), end: at(40), kind: IntervalType::Idle });
    t.db.intervals.push(Interval { start: at(100), end: at(100), kind: IntervalType::Focus });
    // the clock went back behind the start of the last interval
    t.update_db(IntervalType::Focus, 0, at(95));
    assert!(t.db.intervals.is_empty());

    // a negative silence puts the start of the Idle interval after its end
    let mut t = tracker();
    t.update_db(IntervalType::Focus, 0, at(0));
    t.update_db(IntervalType::Idle, -20, at(5));
    assert_eq!(t.db.intervals, vec![Interval { start: at(0), end: at(25), kind: IntervalType::Focus }]);
}

#[test]
fn pruning_keeps_what_ended_within_thirty_days() {
    let day: i64 = 86_400;
    let now = at(40 * day);
    let mut t = tracker();
    let ending = |end: Timestamp| Interval { start: at(0), end, kind: IntervalType::Focus };
    t.db.intervals = vec![
        ending(at(9 * day)),                                     // 31 days old
        ending(Timestamp::from_nanos(at(10 * day).nanos - 1)),   // a nanosecond older than 30 days
        ending(at(10 * day)),                                    // exactly 30 days old
        ending(at(11 * day)),                                    // 29 days old
        ending(now),
    ];
    t.prune_at(now);
    assert_eq!(t.db.intervals, vec![ending(at(10 * day)), ending(at(11 * day)), ending(now)]);

    // a log of one interval that ended exactly 30 days ago keeps it
    let mut t = tracker();
    t.db.intervals = vec![ending(at(10 * day))];
    t.prune_at(now);
    assert_eq!(t.db.intervals, vec![ending(at(10 * day))]);

    // near the earliest instant nothing can be older than the cutoff
    let mut t = tracker();
    t.db.intervals = vec![Interval {
        start: Timestamp::from_nanos(i64::MIN),
        end: Timestamp::from_nanos(i64::MIN + 1),
        kind: IntervalType::Idle,
    }];
    t.prune_at(Timestamp::from_nanos(i64::MIN + 5));
    assert_eq!(t.db.intervals.len(), 1);
}

#[test]
fn an_interval_made_now_has_no_length() {
    let iv = Interval::new(IntervalType::Idle);
    assert_eq!(iv.kind, IntervalType::Idle);
    assert_eq!(iv.start, iv.end);
    let now = chrono::Utc::now().timestamp_nanos_opt().unwrap();
    assert!((now - iv.start.nanos).abs() < 60_000_000_000);
    assert!(iv.start.nanos >= 0);
    assert_eq!(iv.duration().nanos(), 0);
    let later = Interval { start: at(0), end: at(90), kind: IntervalType::Focus };
    assert_eq!(later.duration().num_seconds(), 90);
}

#[test]
fn a_gap_also_drops_what_is_not_valid() {
    let mut t = tracker();
    t.db.intervals.push(Interval { start: at(50), end: at(40), kind: IntervalType::Idle });
    t.db.intervals.push(Interval { start: at(60), end: at(70), kind: IntervalType::Focus });
    t.update_db(IntervalType::Focus, 0, at(100));
    assert_eq!(
        t.db.intervals,
        vec![
            Interval { start: at(60), end: at(70), kind: IntervalType::Focus },
            Interval { start: at(100), end: at(100), kind: IntervalType::Focus },
        ]
    );
}

#[test]
fn a_first_sample_keeps_nothing_but_itself() {
    let mut t = tracker();
    t.update_db(IntervalType::Idle, 500, at(7));
    assert_eq!(t.db.intervals, vec![Interval { start: at(7), end: at(7), kind: IntervalType::Idle }]);
}
