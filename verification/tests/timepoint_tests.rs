use thread_tryjoin::{
    deadline_after, deadline_after_saturating, TimeSpec, WaitDuration, NANOS_PER_SEC,
};

#[test]
fn from_millis_splits_exactly() {
    let d: WaitDuration = WaitDuration::from_millis(1500);
    assert_eq!(d.secs, 1);
    assert_eq!(d.nanos, 500_000_000);
}

#[test]
fn from_micros_keeps_fractional_milliseconds() {
    // 1500 microseconds is 1.5 ms: it must survive as 1_500_000 ns, not
    // collapse to a whole number of milliseconds or seconds.
    let d: WaitDuration = WaitDuration::from_micros(1500);
    assert_eq!(d.secs, 0);
    assert_eq!(d.nanos, 1_500_000);
}

#[test]
fn from_nanos_carries_whole_seconds() {
    let d: WaitDuration = WaitDuration::from_nanos(2_000_000_001);
    assert_eq!(d.secs, 2);
    assert_eq!(d.nanos, 1);
}

#[test]
fn from_secs_has_no_sub_second_part() {
    let d: WaitDuration = WaitDuration::from_secs(3);
    assert_eq!(d.secs, 3);
    assert_eq!(d.nanos, 0);
}

#[test]
fn new_keeps_both_fields() {
    let d: WaitDuration = WaitDuration::new(5, 42);
    assert_eq!(d.secs, 5);
    assert_eq!(d.nanos, 42);
}

#[test]
fn deadline_adds_sub_second_parts_exactly() {
    let now: TimeSpec = TimeSpec { sec: 100, nsec: 250_000_000 };
    let dl: TimeSpec = deadline_after(&now, &WaitDuration::from_micros(1500));
    assert_eq!(dl.sec, 100);
    assert_eq!(dl.nsec, 251_500_000);
}

#[test]
fn deadline_carries_into_the_next_second() {
    let now: TimeSpec = TimeSpec { sec: 100, nsec: 999_999_999 };
    let dl: TimeSpec = deadline_after(&now, &WaitDuration::from_nanos(2));
    assert_eq!(dl.sec, 101);
    assert_eq!(dl.nsec, 1);
}

#[test]
fn zero_wait_deadline_is_now() {
    let now: TimeSpec = TimeSpec { sec: 7, nsec: 123_456_789 };
    let dl: TimeSpec = deadline_after(&now, &WaitDuration::from_secs(0));
    assert_eq!(dl, now);
}

#[test]
fn unrepresentable_deadline_saturates_to_the_latest_time() {
    let now: TimeSpec = TimeSpec { sec: i64::MAX, nsec: 0 };
    let dl: TimeSpec = deadline_after_saturating(&now, &WaitDuration::from_secs(5));
    assert_eq!(dl.sec, i64::MAX);
    assert_eq!(dl.nsec, 999_999_999);
}

#[test]
fn representable_deadline_is_exact_through_saturating() {
    let now: TimeSpec = TimeSpec { sec: 50, nsec: 900_000_000 };
    let dl: TimeSpec = deadline_after_saturating(&now, &WaitDuration::from_millis(200));
    assert_eq!(dl.sec, 51);
    assert_eq!(dl.nsec, 100_000_000);
}

#[test]
fn from_unix_accepts_exactly_the_representable_range() {
    let t: TimeSpec = TimeSpec::from_unix(5, 1).unwrap();
    assert_eq!(t.sec, 5);
    assert_eq!(t.nsec, 1);
    assert!(TimeSpec::from_unix(5, NANOS_PER_SEC).is_none());
    assert!(TimeSpec::from_unix(u64::MAX, 0).is_none());
}
