use mp3_player::time::{checked_to_millis, to_millis};
use std::time::Duration;

#[test]
fn to_millis_adds_seconds_and_whole_milliseconds() {
    assert_eq!(to_millis(Duration::new(2, 345_678_901)), 2345);
}

#[test]
fn to_millis_of_zero_is_zero() {
    assert_eq!(to_millis(Duration::from_secs(0)), 0);
}

#[test]
fn to_millis_drops_sub_millisecond_parts() {
    assert_eq!(to_millis(Duration::new(5, 999_999_999)), 5999);
    assert_eq!(to_millis(Duration::from_nanos(999_999)), 0);
}

#[test]
fn checked_to_millis_matches_to_millis_when_it_fits() {
    assert_eq!(checked_to_millis(Duration::new(7, 1_000_000)), Some(7001));
}

#[test]
fn checked_to_millis_refuses_overflow() {
    assert_eq!(checked_to_millis(Duration::new(u64::MAX, 0)), None);
    assert_eq!(checked_to_millis(Duration::new(u64::MAX / 1000 + 1, 0)), None);
}

#[test]
fn checked_to_millis_at_the_limit() {
    // u64::MAX = 18446744073709551615
    let secs = u64::MAX / 1000;
    assert_eq!(checked_to_millis(Duration::new(secs, 615_000_000)), Some(u64::MAX));
    assert_eq!(checked_to_millis(Duration::new(secs, 616_000_000)), None);
}

#[test]
fn to_millis_round_trips_milliseconds() {
    for m in [0u64, 1, 999, 1000, 123_456_789, u64::MAX] {
        assert_eq!(to_millis(Duration::from_millis(m)), m);
    }
}

#[test]
fn to_millis_grows_with_the_duration() {
    let durations = [
        Duration::new(0, 0),
        Duration::new(0, 999_999),
        Duration::new(0, 1_000_000),
        Duration::new(1, 0),
        Duration::new(1, 500_000_000),
        Duration::new(2, 1),
    ];
    for pair in durations.windows(2) {
        assert!(to_millis(pair[0]) <= to_millis(pair[1]));
    }
}
