use chaos_operator::time::{Timestamp, MAX_SECS, MIN_SECS, NANOS_PER_SEC};
use chrono::{DateTime, TimeDelta, Utc};

fn through_chrono(t: Timestamp, by: u32) -> Option<Timestamp> {
    let start = DateTime::from_timestamp(t.secs, t.nanos)?;
    let end = start.checked_add_signed(TimeDelta::seconds(i64::from(by)))?;
    Some(Timestamp { secs: end.timestamp(), nanos: end.timestamp_subsec_nanos() })
}

#[test]
fn range_is_that_of_the_calendar() {
    assert_eq!(MIN_SECS, DateTime::<Utc>::MIN_UTC.timestamp());
    assert_eq!(MAX_SECS, DateTime::<Utc>::MAX_UTC.timestamp());
    assert_eq!(NANOS_PER_SEC, 1_000_000_000);
    assert!(DateTime::from_timestamp(MIN_SECS, 0).is_some());
    assert!(DateTime::from_timestamp(MIN_SECS - 1, 0).is_none());
    assert!(DateTime::from_timestamp(MAX_SECS, 999_999_999).is_some());
    assert!(DateTime::from_timestamp(MAX_SECS + 1, 0).is_none());
}

#[test]
fn adding_seconds_moves_the_seconds_only() {
    let t = Timestamp::new(1_700_000_000, 250);
    assert_eq!(t.checked_add_seconds(0), Some(t));
    assert_eq!(t.checked_add_seconds(1), Some(Timestamp { secs: 1_700_000_001, nanos: 250 }));
    assert_eq!(
        t.checked_add_seconds(u32::MAX),
        Some(Timestamp { secs: 1_700_000_000 + 4_294_967_295, nanos: 250 })
    );
    let early = Timestamp::new(-86_401, 999_999_999);
    assert_eq!(early.checked_add_seconds(2), Some(Timestamp { secs: -86_399, nanos: 999_999_999 }));
}

#[test]
fn adding_seconds_stops_at_the_end_of_the_range() {
    let last = Timestamp::new(MAX_SECS, 5);
    assert_eq!(last.checked_add_seconds(0), Some(last));
    assert_eq!(last.checked_add_seconds(1), None);
    let near = Timestamp::new(MAX_SECS - 10, 5);
    assert_eq!(near.checked_add_seconds(10), Some(last));
    assert_eq!(near.checked_add_seconds(11), None);
    let first = Timestamp::new(MIN_SECS, 0);
    assert_eq!(first.checked_add_seconds(3), Some(Timestamp { secs: MIN_SECS + 3, nanos: 0 }));
}

#[test]
fn what_is_no_instant_cannot_be_moved() {
    assert_eq!(Timestamp::new(MIN_SECS - 1, 0).checked_add_seconds(5), None);
    assert_eq!(Timestamp::new(MAX_SECS + 1, 0).checked_add_seconds(0), None);
    assert_eq!(Timestamp::new(0, 2_000_000_000).checked_add_seconds(0), None);
    // A leap second's nanoseconds outside the last second of a minute.
    assert_eq!(Timestamp::new(58, 1_000_000_000).checked_add_seconds(0), None);
    assert_eq!(Timestamp::new(60, 1_999_999_999).checked_add_seconds(1), None);
    assert_eq!(Timestamp::new(i64::MAX, 0).checked_add_seconds(1), None);
    assert_eq!(Timestamp::new(i64::MIN, 0).checked_add_seconds(1), None);
}

#[test]
fn leap_second_is_left_behind() {
    let leap = Timestamp::new(59, 1_300_000_000);
    assert_eq!(leap.checked_add_seconds(0), Some(leap));
    assert_eq!(leap.checked_add_seconds(1), Some(Timestamp { secs: 60, nanos: 300_000_000 }));
    assert_eq!(leap.checked_add_seconds(10), Some(Timestamp { secs: 69, nanos: 300_000_000 }));
    let before_epoch = Timestamp::new(-1, 1_999_999_999);
    assert_eq!(
        before_epoch.checked_add_seconds(1),
        Some(Timestamp { secs: 0, nanos: 999_999_999 })
    );
}

#[test]
fn addition_agrees_with_the_calendar() {
    let seconds: [i64; 9] =
        [MIN_SECS, -62_135_596_800, -1, 0, 59, 1_483_228_799, 1_700_000_000, MAX_SECS - 1, MAX_SECS];
    let nanos: [u32; 5] = [0, 1, 999_999_999, 1_000_000_000, 1_999_999_999];
    let by: [u32; 5] = [0, 1, 60, 86_400, u32::MAX];
    for s in seconds {
        for n in nanos {
            for b in by {
                let t = Timestamp::new(s, n);
                assert_eq!(t.checked_add_seconds(b), through_chrono(t, b));
            }
        }
    }
}

#[test]
fn order_is_that_of_the_calendar() {
    let points = [
        Timestamp::new(-5, 0),
        Timestamp::new(-5, 7),
        Timestamp::new(0, 0),
        Timestamp::new(59, 999_999_999),
        Timestamp::new(59, 1_000_000_000),
        Timestamp::new(60, 0),
        Timestamp::new(1_700_000_000, 1),
    ];
    for (i, a) in points.iter().enumerate() {
        for (j, b) in points.iter().enumerate() {
            assert_eq!(a.is_at_or_after(b), i >= j);
            let x = DateTime::from_timestamp(a.secs, a.nanos).unwrap();
            let y = DateTime::from_timestamp(b.secs, b.nanos).unwrap();
            assert_eq!(a.is_at_or_after(b), x >= y);
        }
    }
}
