use chrono::{DateTime, Datelike, Local, TimeZone, Utc};
use neflo::models::{Database, Interval, IntervalType};
use neflo::stats::{
    calculate_stats, calculate_stats_at, calculate_summary, daily_stats, date_intervals, DatedInterval, DayStats,
    SummaryStats,
};
use neflo::time::{Duration, Timestamp};

fn ts(at: DateTime<Utc>) -> Timestamp {
    Timestamp::from_parts(at.timestamp(), at.timestamp_subsec_nanos())
}

fn span(start_min: i64, end_min: i64, kind: IntervalType) -> Interval {
    let base = Utc.with_ymd_and_hms(2023, 1, 1, 10, 0, 0).unwrap();
    Interval {
        start: ts(base + chrono::Duration::minutes(start_min)),
        end: ts(base + chrono::Duration::minutes(end_min)),
        kind,
    }
}

#[test]
fn test_calculate_summary_empty() {
    let summary = calculate_summary(&[]);
    assert_eq!(summary.total_focus, Duration::zero());
    assert_eq!(summary.total_idle, Duration::zero());
    assert_eq!(summary.focus_count, 0);
    assert_eq!(summary.idle_count, 0);
    assert!(summary.max_focus.is_none());
}

#[test]
fn summary_of_nothing_has_no_extremes() {
    let summary = calculate_summary(&[]);
    assert!(summary.min_focus.is_none());
    assert!(summary.max_idle.is_none());
    assert!(summary.min_idle.is_none());
    assert_eq!(summary, SummaryStats::default());
}

#[test]
fn test_calculate_summary_mixed() {
    let base_time = Utc.with_ymd_and_hms(2023, 1, 1, 10, 0, 0).unwrap();
    let intervals = vec![
        Interval {
            start: ts(base_time),
            end: ts(base_time + chrono::Duration::minutes(10)),
            kind: IntervalType::Focus,
        },
        Interval {
            start: ts(base_time + chrono::Duration::minutes(10)),
            end: ts(base_time + chrono::Duration::minutes(15)),
            kind: IntervalType::Idle,
        },
        Interval {
            start: ts(base_time + chrono::Duration::minutes(15)),
            end: ts(base_time + chrono::Duration::minutes(35)),
            kind: IntervalType::Focus,
        },
    ];

    let summary = calculate_summary(&intervals);
    assert_eq!(summary.total_focus, Duration::minutes(30));
    assert_eq!(summary.total_idle, Duration::minutes(5));
    assert_eq!(summary.focus_count, 2);
    assert_eq!(summary.idle_count, 1);
    assert_eq!(summary.max_focus, Some(Duration::minutes(20)));
    assert_eq!(summary.min_focus, Some(Duration::minutes(10)));
}

#[test]
fn summary_tracks_idle_extremes_too() {
    let intervals = vec![
        span(0, 3, IntervalType::Idle),
        span(3, 4, IntervalType::Focus),
        span(4, 11, IntervalType::Idle),
        span(11, 11, IntervalType::Idle),
    ];
    let summary = calculate_summary(&intervals);
    assert_eq!(summary.total_idle, Duration::minutes(10));
    assert_eq!(summary.idle_count, 3);
    assert_eq!(summary.max_idle, Some(Duration::minutes(7)));
    assert_eq!(summary.min_idle, Some(Duration::zero()));
    assert_eq!(summary.max_focus, Some(Duration::minutes(1)));
    assert_eq!(summary.min_focus, Some(Duration::minutes(1)));
}

#[test]
fn summary_skips_intervals_that_end_before_they_start() {
    let intervals = vec![span(10, 0, IntervalType::Focus), span(0, 5, IntervalType::Focus)];
    let summary = calculate_summary(&intervals);
    assert_eq!(summary.focus_count, 1);
    assert_eq!(summary.total_focus, Duration::minutes(5));
    assert_eq!(summary.max_focus, Some(Duration::minutes(5)));
    assert_eq!(summary.min_focus, Some(Duration::minutes(5)));
}

#[test]
fn test_calculate_stats_filtering() {
    let base_time = Utc.with_ymd_and_hms(2023, 1, 1, 10, 0, 0).unwrap();
    let run_start = ts(base_time + chrono::Duration::minutes(15));

    let db = Database {
        intervals: vec![
            Interval {
                start: ts(base_time),
                end: ts(base_time + chrono::Duration::minutes(10)),
                kind: IntervalType::Focus,
            },
            Interval {
                start: ts(base_time + chrono::Duration::minutes(20)),
                end: ts(base_time + chrono::Duration::minutes(30)),
                kind: IntervalType::Focus,
            },
        ],
    };

    let stats = calculate_stats(&db, Some(run_start));

    // Session should only have the second interval
    assert_eq!(stats.session_summary.focus_count, 1);
    assert_eq!(stats.session_summary.total_focus, Duration::minutes(10));
}

#[test]
fn stats_without_a_run_have_an_empty_session() {
    let db = Database { intervals: vec![span(0, 10, IntervalType::Focus)] };
    let stats = calculate_stats(&db, None);
    assert_eq!(stats.session_summary, SummaryStats::default());
}

#[test]
fn stats_follow_the_local_calendar() {
    let now = Utc::now();
    let db = Database {
        intervals: vec![Interval {
            start: ts(now - chrono::Duration::seconds(90)),
            end: ts(now - chrono::Duration::seconds(30)),
            kind: IntervalType::Focus,
        }],
    };
    let stats = calculate_stats(&db, None);
    let local_now = Local::now();
    let today = local_now.date_naive().num_days_from_ce() as i64;
    // the day may turn between the two readings of the clock
    assert!(stats.today == today || stats.today == today - 1);
    assert!(stats.week_start <= stats.today && stats.today - stats.week_start <= 6);
    let monday = chrono::NaiveDate::from_num_days_from_ce_opt(stats.week_start as i32).unwrap();
    assert_eq!(monday.weekday(), chrono::Weekday::Mon);
    let day = (now - chrono::Duration::seconds(90)).with_timezone(&Local).date_naive().num_days_from_ce() as i64;
    let of_day = stats.daily_stats.get(&day).unwrap();
    assert_eq!(of_day.total_focus, Duration::seconds(60));
    assert_eq!(of_day.focus_sessions, 1);
    assert_eq!(stats.daily_stats.len(), 1);
}

#[test]
fn date_intervals_keeps_the_intervals_in_order() {
    let log = vec![span(0, 10, IntervalType::Focus), span(10, 20, IntervalType::Idle)];
    let dated = date_intervals(&log);
    assert_eq!(dated.len(), 2);
    assert_eq!(dated[0].interval, log[0]);
    assert_eq!(dated[1].interval, log[1]);
    let local = Utc.with_ymd_and_hms(2023, 1, 1, 10, 0, 0).unwrap().with_timezone(&Local);
    assert_eq!(dated[0].day, local.date_naive().num_days_from_ce() as i64);
}

#[test]
fn stats_at_select_by_run_day_and_week() {
    // the run starts at minute 15: the first interval lies wholly before it
    let t0 = Utc.with_ymd_and_hms(2023, 1, 1, 10, 0, 0).unwrap();
    let run_start = ts(t0 + chrono::Duration::minutes(15));
    let dated = vec![
        DatedInterval { interval: span(0, 10, IntervalType::Focus), day: 100 },
        DatedInterval { interval: span(20, 30, IntervalType::Focus), day: 100 },
        DatedInterval { interval: span(30, 35, IntervalType::Idle), day: 100 },
        DatedInterval { interval: span(40, 60, IntervalType::Focus), day: 97 },
        DatedInterval { interval: span(60, 61, IntervalType::Idle), day: 96 },
        DatedInterval { interval: span(70, 73, IntervalType::Focus), day: 104 },
    ];
    let stats = calculate_stats_at(&dated, 100, 97, Some(run_start));

    assert_eq!(stats.today, 100);
    assert_eq!(stats.week_start, 97);

    // session: what started at minute 15 or later
    assert_eq!(stats.session_summary.focus_count, 3);
    assert_eq!(stats.session_summary.total_focus, Duration::minutes(33));
    assert_eq!(stats.session_summary.idle_count, 2);

    // today: day 100, the interval before the run included
    assert_eq!(stats.today_summary.focus_count, 2);
    assert_eq!(stats.today_summary.total_focus, Duration::minutes(20));
    assert_eq!(stats.today_summary.idle_count, 1);
    assert_eq!(stats.today_summary.total_idle, Duration::minutes(5));

    // week: days 97 to 103
    assert_eq!(stats.week_summary.focus_count, 3);
    assert_eq!(stats.week_summary.total_focus, Duration::minutes(40));
    assert_eq!(stats.week_summary.idle_count, 1);
    assert_eq!(stats.week_summary.max_focus, Some(Duration::minutes(20)));

    // by day
    assert_eq!(stats.daily_stats.len(), 4);
    let day = stats.daily_stats.get(&100).unwrap();
    assert_eq!(day.total_focus, Duration::minutes(20));
    assert_eq!(day.total_idle, Duration::minutes(5));
    assert_eq!(day.focus_sessions, 2);
    assert_eq!(day.idle_sessions, 1);
    assert_eq!(stats.daily_stats.get(&96).unwrap().idle_sessions, 1);
    assert_eq!(stats.daily_stats.get(&104).unwrap().total_focus, Duration::minutes(3));
    assert!(stats.daily_stats.get(&98).is_none());
}

#[test]
fn week_selection_ends_on_the_seventh_day() {
    let dated = vec![
        DatedInterval { interval: span(0, 1, IntervalType::Focus), day: 9 },
        DatedInterval { interval: span(1, 2, IntervalType::Focus), day: 10 },
        DatedInterval { interval: span(2, 3, IntervalType::Focus), day: 16 },
        DatedInterval { interval: span(3, 4, IntervalType::Focus), day: 17 },
    ];
    let stats = calculate_stats_at(&dated, 12, 10, None);
    assert_eq!(stats.week_summary.focus_count, 2);
    assert_eq!(stats.today_summary.focus_count, 0);
    assert_eq!(stats.session_summary.focus_count, 0);
    let at_the_edge = calculate_stats_at(&dated, i64::MAX, i64::MAX, None);
    assert_eq!(at_the_edge.week_summary.focus_count, 0);
}

#[test]
fn daily_stats_leave_out_days_with_nothing_valid() {
    let dated = vec![
        DatedInterval { interval: span(10, 0, IntervalType::Focus), day: 1 },
        DatedInterval { interval: span(0, 10, IntervalType::Idle), day: 2 },
        DatedInterval { interval: span(30, 20, IntervalType::Idle), day: 2 },
    ];
    let daily = daily_stats(&dated);
    assert_eq!(daily.len(), 1);
    let day = daily.get(&2).unwrap();
    assert_eq!(day.idle_sessions, 1);
    assert_eq!(day.total_idle, Duration::minutes(10));
    assert_eq!(day.focus_sessions, 0);
    assert_eq!(day.total_focus, Duration::zero());
}

#[test]
fn day_stats_start_at_zero() {
    let day = DayStats::default();
    assert_eq!(day.total_focus, Duration::zero());
    assert_eq!(day.total_idle, Duration::zero());
    assert_eq!(day.focus_sessions, 0);
    assert_eq!(day.idle_sessions, 0);
}

#[test]
fn local_days_lie_within_a_day_of_utc() {
    let starts: [i64; 6] = [0, 86_399, 86_400, 1_672_567_200, -1, -86_401];
    let log: Vec<Interval> = starts
        .iter()
        .map(|secs| Interval {
            start: Timestamp::from_parts(*secs, 999_999_999),
            end: Timestamp::from_parts(*secs + 60, 0),
            kind: IntervalType::Focus,
        })
        .collect();
    let dated = date_intervals(&log);
    assert_eq!(dated.len(), log.len());
    for (entry, secs) in dated.iter().zip(starts) {
        let utc_day = secs.div_euclid(86_400) + 719_163;
        assert!(utc_day - 1 <= entry.day && entry.day <= utc_day + 1);
        let at = chrono::DateTime::from_timestamp(secs, 999_999_999).unwrap();
        assert_eq!(at.date_naive().num_days_from_ce() as i64, utc_day);
        assert_eq!(entry.day, at.with_timezone(&Local).date_naive().num_days_from_ce() as i64);
    }
}
