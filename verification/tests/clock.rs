use pomodoro::clock::{Timestamp, MAX_SECONDS, MIN_SECONDS};

#[test]
fn timestamps_outside_the_range_are_refused() {
    assert!(Timestamp::new(0, 0).is_some());
    assert!(Timestamp::new(MIN_SECONDS, 0).is_some());
    assert!(Timestamp::new(MAX_SECONDS, 999_999_999).is_some());
    assert!(Timestamp::new(MIN_SECONDS - 1, 0).is_none());
    assert!(Timestamp::new(MAX_SECONDS + 1, 0).is_none());
    assert!(Timestamp::new(0, 1_000_000_000).is_none());
    assert_eq!(Some(Timestamp { secs: -5, nanos: 7 }), Timestamp::new(-5, 7));
}

#[test]
fn the_range_spans_the_years_one_to_9999() {
    let first = chrono::DateTime::parse_from_rfc3339("0001-01-01T00:00:00Z").unwrap();
    let last = chrono::DateTime::parse_from_rfc3339("9999-12-31T23:59:59Z").unwrap();
    assert_eq!(first.timestamp(), MIN_SECONDS);
    assert_eq!(last.timestamp(), MAX_SECONDS);
}

#[test]
fn minutes_are_added_and_subtracted_in_seconds() {
    let at = Timestamp::new(1_000, 5).unwrap();
    assert_eq!(Timestamp { secs: 1_000 + 25 * 60, nanos: 5 }, at.plus_minutes(25));
    assert_eq!(Timestamp { secs: 1_000 - 25 * 60, nanos: 5 }, at.minus_minutes(25));
    assert_eq!(at, at.plus_minutes(0));
    assert_eq!(at, at.plus_minutes(131_070).minus_minutes(131_070));
    assert!(at.fits_plus_minutes(131_070));
    let late = Timestamp::new(MAX_SECONDS - 59, 0).unwrap();
    assert!(late.fits_plus_minutes(0));
    assert!(!late.fits_plus_minutes(1));
    let just = Timestamp::new(MAX_SECONDS - 60, 999_999_999).unwrap();
    assert!(just.fits_plus_minutes(1));
    assert_eq!(MAX_SECONDS, just.plus_minutes(1).get_secs());
}

#[test]
fn instants_are_ordered_by_seconds_then_nanoseconds() {
    let a = Timestamp::new(10, 999_999_999).unwrap();
    let b = Timestamp::new(11, 0).unwrap();
    let c = Timestamp::new(-3, 5).unwrap();
    assert!(a.is_before(&b));
    assert!(!b.is_before(&a));
    assert!(!a.is_before(&a));
    assert!(c.is_before(&a));
    assert_eq!(b, a.later(&b));
    assert_eq!(b, b.later(&a));
    assert_eq!(a, a.later(&c));
    assert_eq!(a, a.later(&a));
}

#[test]
fn whole_seconds_round_towards_zero() {
    let at = |secs: i64, nanos: u32| Timestamp::new(secs, nanos).unwrap();
    assert_eq!(0, at(10, 0).whole_seconds_until(&at(10, 0)));
    assert_eq!(0, at(10, 0).whole_seconds_until(&at(10, 999_999_999)));
    assert_eq!(1, at(10, 0).whole_seconds_until(&at(11, 0)));
    assert_eq!(0, at(10, 500_000_000).whole_seconds_until(&at(11, 499_999_999)));
    assert_eq!(1, at(10, 500_000_000).whole_seconds_until(&at(11, 500_000_000)));
    assert_eq!(0, at(10, 999_999_999).whole_seconds_until(&at(10, 0)));
    assert_eq!(0, at(11, 0).whole_seconds_until(&at(10, 1)));
    assert_eq!(-1, at(11, 0).whole_seconds_until(&at(10, 0)));
    assert_eq!(-1, at(11, 500_000_000).whole_seconds_until(&at(10, 0)));
    assert_eq!(-2, at(12, 0).whole_seconds_until(&at(10, 0)));
    assert_eq!(1500, at(-700, 3).whole_seconds_until(&at(800, 3)));
    assert_eq!(
        MAX_SECONDS - MIN_SECONDS,
        at(MIN_SECONDS, 0).whole_seconds_until(&at(MAX_SECONDS, 999_999_999))
    );
    assert_eq!(
        MIN_SECONDS - MAX_SECONDS,
        at(MAX_SECONDS, 999_999_999).whole_seconds_until(&at(MIN_SECONDS, 0))
    );
}

#[test]
fn whole_seconds_agree_with_chrono() {
    let pairs = [
        ((10i64, 0u32), (10i64, 999_999_999u32)),
        ((10, 500_000_000), (11, 499_999_999)),
        ((11, 0), (10, 1)),
        ((11, 500_000_000), (10, 0)),
        ((1_650_000_000, 1), (1_650_001_500, 0)),
        ((-5, 999_999_999), (5, 0)),
    ];
    for ((s1, n1), (s2, n2)) in pairs {
        let from = chrono::DateTime::from_timestamp(s1, n1).unwrap();
        let to = chrono::DateTime::from_timestamp(s2, n2).unwrap();
        let ours =
            Timestamp::new(s1, n1).unwrap().whole_seconds_until(&Timestamp::new(s2, n2).unwrap());
        assert_eq!((to - from).num_seconds(), ours);
    }
}
