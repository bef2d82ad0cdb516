use neflo::utils::format_duration;

#[test]
fn utils_test_format_duration() {
    assert_eq!(format_duration(0), "0s");
    assert_eq!(format_duration(1), "1s");
    assert_eq!(format_duration(59), "59s");
    assert_eq!(format_duration(60), "1m");
    assert_eq!(format_duration(61), "1m 1s");
    assert_eq!(format_duration(3600), "1h");
    assert_eq!(format_duration(3661), "1h 1m 1s");
    assert_eq!(format_duration(86400), "1d");
    assert_eq!(format_duration(86400 + 3600 + 60 + 1), "1d 1h 1m 1s");
}

#[test]
fn format_duration_of_large_and_negative_numbers() {
    assert_eq!(format_duration(1_234_567), "14d 6h 56m 7s");
    assert_eq!(format_duration(90_000), "1d 1h");
    assert_eq!(format_duration(i64::MAX), "106751991167300d 15h 30m 7s");
    assert_eq!(format_duration(-5), "-5s");
    assert_eq!(format_duration(-59), "-59s");
    assert_eq!(format_duration(-60), "");
    assert_eq!(format_duration(-3600), "");
    assert_eq!(format_duration(i64::MIN), "");
}
