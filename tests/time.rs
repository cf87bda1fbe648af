use raw_sync::time::{normalize, reached, add_span, deadline_after, millis_from_parts, wait_millis, TimeSpec, INFINITE_MILLIS};
use raw_sync::Timeout;
use std::time::Duration;

#[test]
fn span_is_added_with_carry() {
    let now = TimeSpec { sec: 10, nsec: 900_000_000 };
    assert_eq!(add_span(now, 2, 200_000_000), TimeSpec { sec: 13, nsec: 100_000_000 });
    assert_eq!(add_span(now, 0, 0), now);
    assert_eq!(add_span(now, 1, 99_999_999), TimeSpec { sec: 11, nsec: 999_999_999 });
}

#[test]
fn span_beyond_range_saturates() {
    let now = TimeSpec { sec: i64::MAX - 1, nsec: 500_000_000 };
    assert_eq!(add_span(now, u64::MAX, 0), TimeSpec { sec: i64::MAX, nsec: 999_999_999 });
    assert_eq!(add_span(now, 1, 0), TimeSpec { sec: i64::MAX, nsec: 500_000_000 });
}

#[test]
fn deadline_is_now_plus_duration() {
    let now = TimeSpec { sec: 100, nsec: 999_000_000 };
    assert_eq!(
        deadline_after(now, &Duration::from_millis(1500)),
        TimeSpec { sec: 102, nsec: 499_000_000 }
    );
    assert_eq!(deadline_after(now, &Duration::from_secs(1)), TimeSpec { sec: 101, nsec: 999_000_000 });
}

#[test]
fn millis_are_rounded_up_and_capped() {
    assert_eq!(millis_from_parts(1, 999_999_999), 2000);
    assert_eq!(millis_from_parts(1, 999_000_000), 1999);
    assert_eq!(millis_from_parts(0, 1), 1);
    assert_eq!(millis_from_parts(0, 1_500_000), 2);
    assert_eq!(millis_from_parts(0, 0), 0);
    assert_eq!(millis_from_parts(u64::MAX, 0), INFINITE_MILLIS - 1);
    assert_eq!(millis_from_parts(4_294_967, 295_000_000), INFINITE_MILLIS - 1);
    assert_eq!(millis_from_parts(4_294_967, 294_000_000), INFINITE_MILLIS - 1);
    assert_eq!(millis_from_parts(4_294_967, 293_000_000), INFINITE_MILLIS - 2);
    assert_eq!(millis_from_parts(4_294_967, 292_000_001), INFINITE_MILLIS - 2);
}

#[test]
fn timeout_in_millis() {
    assert_eq!(wait_millis(&Timeout::Infinite), INFINITE_MILLIS);
    assert_eq!(wait_millis(&Timeout::Val(Duration::from_millis(2500))), 2500);
    assert_eq!(wait_millis(&Timeout::Val(Duration::from_micros(1999))), 2);
    assert_eq!(wait_millis(&Timeout::Val(Duration::from_micros(1500))), 2);
    assert_eq!(wait_millis(&Timeout::Val(Duration::from_micros(1000))), 1);
}

#[test]
fn deadline_reached_compares_whole_times() {
    let d = TimeSpec { sec: 10, nsec: 500 };
    assert!(reached(TimeSpec { sec: 10, nsec: 500 }, d));
    assert!(reached(TimeSpec { sec: 11, nsec: 0 }, d));
    assert!(!reached(TimeSpec { sec: 10, nsec: 499 }, d));
    assert!(!reached(TimeSpec { sec: 9, nsec: 999_999_999 }, d));
}

#[test]
fn clock_values_are_normalized() {
    assert_eq!(normalize(5, 0), TimeSpec { sec: 5, nsec: 0 });
    assert_eq!(normalize(5, 2_300_000_000), TimeSpec { sec: 7, nsec: 300_000_000 });
    assert_eq!(normalize(5, -1), TimeSpec { sec: 4, nsec: 999_999_999 });
    assert_eq!(normalize(i64::MAX, 1_000_000_000), TimeSpec { sec: i64::MAX, nsec: 999_999_999 });
    assert_eq!(normalize(i64::MIN, -1), TimeSpec { sec: i64::MIN, nsec: 0 });
}
