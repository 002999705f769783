use lux_recorder::clock::{elapsed_secs, seconds_to_hms, NANOS_PER_SEC};

#[test]
fn hms_of_zero() {
    assert_eq!(seconds_to_hms(0), (0, 0, 0));
}

#[test]
fn hms_of_one_hour_one_minute_one_second() {
    assert_eq!(seconds_to_hms(3661), (1, 1, 1));
}

#[test]
fn hms_below_a_minute_and_below_an_hour() {
    assert_eq!(seconds_to_hms(59), (0, 0, 59));
    assert_eq!(seconds_to_hms(60), (0, 1, 0));
    assert_eq!(seconds_to_hms(3599), (0, 59, 59));
    assert_eq!(seconds_to_hms(3600), (1, 0, 0));
}

#[test]
fn hms_past_a_day() {
    assert_eq!(seconds_to_hms(86399), (23, 59, 59));
    assert_eq!(seconds_to_hms(90061), (25, 1, 1));
}

#[test]
fn hms_recomposes_for_many_spans() {
    for s in [0u64, 1, 59, 61, 3599, 3601, 7325, 123456, 9_999_999, u64::MAX] {
        let (h, m, x) = seconds_to_hms(s);
        assert!(m < 60 && x < 60);
        assert_eq!(h as u128 * 3600 + m as u128 * 60 + x as u128, s as u128);
    }
}

#[test]
fn elapsed_counts_whole_seconds() {
    assert_eq!(elapsed_secs(0, 0), 0);
    assert_eq!(elapsed_secs(0, NANOS_PER_SEC - 1), 0);
    assert_eq!(elapsed_secs(0, NANOS_PER_SEC), 1);
    assert_eq!(elapsed_secs(500, 2_500_000_500), 2);
    assert_eq!(elapsed_secs(1_000, 3_999_999_999), 3);
}

#[test]
fn elapsed_before_start_is_zero() {
    assert_eq!(elapsed_secs(5_000_000_000, 1_000_000_000), 0);
}
