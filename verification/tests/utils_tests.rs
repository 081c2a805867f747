use time_server_utils::clock::millis_from_parts;
use time_server_utils::estimator::from_seconds_parts;
use time_server_utils::estimator::to_seconds_parts;
use time_server_utils::get_unix_times;
use time_server_utils::round_to_nearest;

#[test]
fn unix() {
    let (unix_ms, unix) = get_unix_times();
    println!("unix_ms: {}", unix_ms);
    println!("unix: {}", unix);
    assert!(unix_ms > 0);
    assert!(unix > 0);
    assert!(unix_ms > unix);
}

#[test]
fn round() {
    assert_eq!(round_to_nearest(1499, 1000), 1000);
    assert_eq!(round_to_nearest(1500, 1000), 2000);
    assert_eq!(round_to_nearest(1501, 1000), 2000);
    assert_eq!(round_to_nearest(1499, 100), 1500);
    assert_eq!(round_to_nearest(1500, 100), 1500);
    assert_eq!(round_to_nearest(1501, 100), 1500);
}

#[test]
fn round_negative_inherits_truncation() {
    // truncating division makes the negative side asymmetric: these are the
    // exact values of the formula, not of round-half-away-from-zero
    assert_eq!(round_to_nearest(-1500, 1000), -1000);
    assert_eq!(round_to_nearest(-1501, 1000), -1000);
    assert_eq!(round_to_nearest(-1499, 1000), 0);
    assert_eq!(round_to_nearest(-2501, 1000), -2000);
    assert_eq!(round_to_nearest(-500, 1000), 0);
}

#[test]
fn unix_times_agree() {
    let (unix_ms, unix) = get_unix_times();
    assert_eq!(unix_ms / 1000, unix);
}

#[test]
fn millis_from_seconds_and_nanos() {
    assert_eq!(millis_from_parts(1, 999_999_999), 1999);
    assert_eq!(millis_from_parts(5, 1_000_000), 5001);
    assert_eq!(millis_from_parts(1_700_000_000, 0), 1_700_000_000_000);
}

#[test]
fn seconds_conversion_round_trip() {
    assert_eq!(to_seconds_parts(1234), (1, 234));
    assert_eq!(to_seconds_parts(-1234), (-1, -234));
    assert_eq!(to_seconds_parts(999), (0, 999));
    assert_eq!(from_seconds_parts(1, 234), 1234);
    assert_eq!(from_seconds_parts(-1, -234), -1234);
    for offset in [-2001_i128, -1000, -1, 0, 1, 999, 1000, 123_456_789] {
        let (whole, rem) = to_seconds_parts(offset);
        assert!(rem.abs() < 1000);
        assert_eq!(from_seconds_parts(whole, rem), offset);
    }
}

#[test]
fn seconds_conversion_at_the_extremes() {
    let (whole, rem) = to_seconds_parts(i128::MIN);
    assert_eq!(rem, -728);
    assert_eq!(from_seconds_parts(whole, rem), i128::MIN);
    let (whole, rem) = to_seconds_parts(i128::MAX);
    assert_eq!(rem, 727);
    assert_eq!(from_seconds_parts(whole, rem), i128::MAX);
}
