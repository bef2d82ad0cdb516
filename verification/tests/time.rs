use neflo::parse::{has_few_digits, parse_duration, parse_time_of_day, span_from_parts, SpanError};
use neflo::time::{Duration, TimeOfDay, Timestamp, MAX_DURATION_NANOS};

#[test]
fn timestamps_from_parts() {
    assert_eq!(Timestamp::from_parts(1, 5).nanos, 1_000_000_005);
    assert_eq!(Timestamp::from_parts(-1, 5).nanos, -999_999_995);
    assert_eq!(Timestamp::from_secs(1_672_567_200).nanos, 1_672_567_200_000_000_000);
    assert_eq!(Timestamp::from_nanos(42).nanos, 42);
    // beyond what 64 bits of nanoseconds hold
    assert_eq!(Timestamp::from_secs(i64::MAX).nanos, i64::MAX);
    assert_eq!(Timestamp::from_secs(-10_000_000_000).nanos, i64::MIN);
    assert_eq!(Timestamp::from_parts(9_223_372_036, 854_775_807).nanos, i64::MAX);
    assert_eq!(Timestamp::from_parts(9_223_372_036, 854_775_808).nanos, i64::MAX);
}

#[test]
fn timestamps_move_back_by_seconds() {
    let t = Timestamp::from_secs(1000);
    assert_eq!(t.saturating_sub_secs(300), Timestamp::from_secs(700));
    assert_eq!(t.saturating_sub_secs(-300), Timestamp::from_secs(1300));
    assert_eq!(t.saturating_sub_secs(i64::MAX).nanos, i64::MIN);
    assert_eq!(t.saturating_sub_secs(i64::MIN).nanos, i64::MAX);
    assert!(Timestamp::from_secs(1).is_before(Timestamp::from_secs(2)));
    assert!(!Timestamp::from_secs(2).is_before(Timestamp::from_secs(2)));
}

#[test]
fn durations_between_timestamps() {
    let a = Timestamp::from_nanos(i64::MIN);
    let b = Timestamp::from_nanos(i64::MAX);
    assert_eq!(b.duration_since(a).nanos(), (i64::MAX as i128) - (i64::MIN as i128));
    assert_eq!(a.duration_since(b).nanos(), (i64::MIN as i128) - (i64::MAX as i128));
    assert_eq!(Timestamp::from_secs(90).duration_since(Timestamp::from_secs(30)), Duration::minutes(1));
}

#[test]
fn durations_from_units() {
    assert_eq!(Duration::zero().nanos(), 0);
    assert_eq!(Duration::seconds(2).nanos(), 2_000_000_000);
    assert_eq!(Duration::minutes(2), Duration::seconds(120));
    assert_eq!(Duration::hours(1), Duration::minutes(60));
    assert_eq!(Duration::days(30), Duration::hours(720));
    assert_eq!(Duration::seconds(-5).nanos(), -5_000_000_000);
    assert_eq!(Duration::seconds(i64::MAX).nanos(), MAX_DURATION_NANOS);
    assert_eq!(Duration::days(i64::MIN).nanos(), -MAX_DURATION_NANOS);
    assert_eq!(Duration::from_nanos(i128::MAX).nanos(), MAX_DURATION_NANOS);
    assert_eq!(Duration::from_nanos(-7).nanos(), -7);
}

#[test]
fn durations_add_and_compare() {
    let limit = Duration::from_nanos(MAX_DURATION_NANOS);
    assert_eq!(Duration::seconds(1).saturating_add(Duration::seconds(2)), Duration::seconds(3));
    assert_eq!(limit.saturating_add(Duration::seconds(1)), limit);
    assert_eq!(
        Duration::from_nanos(-MAX_DURATION_NANOS).saturating_add(Duration::seconds(-1)).nanos(),
        -MAX_DURATION_NANOS
    );
    assert!(Duration::seconds(1).is_shorter_than(Duration::seconds(2)));
    assert!(!Duration::seconds(2).is_shorter_than(Duration::seconds(2)));
    assert_eq!(Duration::seconds(1).longest(Duration::seconds(2)), Duration::seconds(2));
    assert_eq!(Duration::seconds(1).shortest(Duration::seconds(2)), Duration::seconds(1));
}

#[test]
fn durations_in_whole_seconds() {
    assert_eq!(Duration::from_nanos(1_999_999_999).num_seconds(), 1);
    assert_eq!(Duration::from_nanos(-1_999_999_999).num_seconds(), -1);
    assert_eq!(Duration::from_nanos(-999_999_999).num_seconds(), 0);
    assert_eq!(Duration::from_nanos(MAX_DURATION_NANOS).num_seconds(), 9_223_372_036_854_775);
}

#[test]
fn durations_from_unsigned_parts() {
    assert_eq!(Duration::from_unsigned_parts(90, 5).unwrap().nanos(), 90_000_000_005);
    assert_eq!(
        Duration::from_unsigned_parts(9_223_372_036_854_775, 807_000_000).unwrap().nanos(),
        MAX_DURATION_NANOS
    );
    assert!(Duration::from_unsigned_parts(9_223_372_036_854_775, 807_000_001).is_none());
    assert!(Duration::from_unsigned_parts(u64::MAX, 0).is_none());
}

#[test]
fn times_of_day_in_order() {
    let nine = TimeOfDay { secs: 9 * 3600, frac: 0 };
    let just_after = TimeOfDay { secs: 9 * 3600, frac: 1 };
    let eight = TimeOfDay { secs: 8 * 3600, frac: 999_999_999 };
    assert!(eight.is_before(nine));
    assert!(nine.is_before(just_after));
    assert!(!nine.is_before(nine));
    assert!(!just_after.is_before(eight));
}

#[test]
fn times_of_day_from_text() {
    assert_eq!(parse_time_of_day("09:00"), Some(TimeOfDay { secs: 9 * 3600, frac: 0 }));
    assert_eq!(parse_time_of_day("7:15"), Some(TimeOfDay { secs: 7 * 3600 + 15 * 60, frac: 0 }));
    assert_eq!(parse_time_of_day("23:59"), Some(TimeOfDay { secs: 86_340, frac: 0 }));
    assert_eq!(parse_time_of_day("17:60"), None);
    assert_eq!(parse_time_of_day("24:00"), None);
    assert_eq!(parse_time_of_day("12"), None);
    assert_eq!(parse_time_of_day(""), None);
}

#[test]
fn spans_from_text() {
    assert_eq!(parse_duration("1h"), Ok(Duration::hours(1)));
    assert_eq!(parse_duration("2h 37min"), Ok(Duration::seconds(9420)));
    assert_eq!(parse_duration("32ms"), Ok(Duration::from_nanos(32_000_000)));
    assert_eq!(parse_duration("0"), Ok(Duration::zero()));
    assert_eq!(parse_duration("soon"), Err(SpanError::Malformed));
    assert_eq!(parse_duration(""), Err(SpanError::Malformed));
    assert_eq!(parse_duration("300000000y"), Err(SpanError::OutOfRange));
}

#[test]
fn spans_from_parts() {
    assert_eq!(span_from_parts(None), Err(SpanError::Malformed));
    assert_eq!(span_from_parts(Some((1, 500_000_000))), Ok(Duration::from_nanos(1_500_000_000)));
    assert_eq!(span_from_parts(Some((u64::MAX, 0))), Err(SpanError::OutOfRange));
}

#[test]
fn timestamps_come_apart_and_together_again() {
    for nanos in [0, 1, 999_999_999, 1_000_000_000, 1_672_567_200_123_456_789, -1, -1_000_000_000, -1_000_000_001, i64::MAX, i64::MIN] {
        let t = Timestamp::from_nanos(nanos);
        assert_eq!(t.secs(), nanos.div_euclid(1_000_000_000));
        assert_eq!(t.subsec_nanos() as i64, nanos.rem_euclid(1_000_000_000));
        assert_eq!(Timestamp::from_parts(t.secs(), t.subsec_nanos()), t);
        // the same instant as the calendar library has it
        let at = chrono::DateTime::from_timestamp(t.secs(), t.subsec_nanos()).unwrap();
        assert_eq!(at.timestamp_nanos_opt(), Some(nanos));
        assert_eq!(Timestamp::from_parts(at.timestamp(), at.timestamp_subsec_nanos()), t);
    }
    assert_eq!(Timestamp::from_nanos(-1).secs(), -1);
    assert_eq!(Timestamp::from_nanos(-1).subsec_nanos(), 999_999_999);
}

#[test]
fn spans_hold_at_most_eleven_digits() {
    assert!(has_few_digits(""));
    assert!(has_few_digits("1h 30m 15s 500ms"));
    assert!(has_few_digits("12345678901"));
    assert!(has_few_digits("1y 2w 3d 4h 5m 6s 7ms 8us 9ns 10s"));
    assert!(!has_few_digits("123456789012"));
    assert!(!has_few_digits("1y 2w 3d 4h 5m 6s 7ms 8us 9ns 100s"));
    // only the digits 0 to 9 count
    assert!(has_few_digits("\u{0661}\u{0662}\u{0663}\u{0664}\u{0665}\u{0666}\u{0667}\u{0668}\u{0669}\u{0660}\u{0661}\u{0662} hours"));

    assert_eq!(parse_duration("99999999999s"), Ok(Duration::seconds(99_999_999_999)));
    assert_eq!(parse_duration("99999999999y"), Err(SpanError::OutOfRange));
    assert_eq!(parse_duration("100000000000s"), Err(SpanError::TooManyDigits));
    assert_eq!(parse_duration("3600000000000ns"), Err(SpanError::TooManyDigits));
    // a sum that would overflow the seconds while carrying a full second of nanoseconds
    assert_eq!(parse_duration("18446744073709551615s 1000000000ns"), Err(SpanError::TooManyDigits));
    // malformed text with many digits is told by its digits first
    assert_eq!(parse_duration("1234567890123 parsecs"), Err(SpanError::TooManyDigits));
    // a full second of nanoseconds is carried where the seconds have room
    assert_eq!(parse_duration("5s 1000000000ns"), Ok(Duration::seconds(6)));
}
