use chrono::{DateTime, FixedOffset};
use todo_list::timestamp::{Timestamp, MAX_SECS, MIN_SECS};

fn ts(secs: i64, nanos: u32, offset: i32) -> Timestamp {
    Timestamp { secs, nanos, offset }
}

#[test]
fn range_is_that_of_the_calendar() {
    assert!(DateTime::from_timestamp(MIN_SECS, 0).is_some());
    assert!(DateTime::from_timestamp(MIN_SECS - 1, 0).is_none());
    assert!(DateTime::from_timestamp(MAX_SECS, 999_999_999).is_some());
    assert!(DateTime::from_timestamp(MAX_SECS + 1, 0).is_none());
    assert_eq!(DateTime::from_timestamp(MIN_SECS, 0).unwrap(), DateTime::<chrono::Utc>::MIN_UTC);
    assert_eq!(
        DateTime::from_timestamp(MAX_SECS, 999_999_999).unwrap(),
        DateTime::<chrono::Utc>::MAX_UTC
    );
}

#[test]
fn representable_instants() {
    assert!(ts(0, 0, 0).is_representable());
    assert!(ts(MIN_SECS, 0, 0).is_representable());
    assert!(ts(MAX_SECS, 999_999_999, 0).is_representable());
    assert!(!ts(MIN_SECS - 1, 0, 0).is_representable());
    assert!(!ts(MAX_SECS + 1, 0, 0).is_representable());
    assert!(!ts(0, 2_000_000_000, 0).is_representable());
    assert!(ts(0, 999_999_999, 0).is_representable());
}

#[test]
fn leap_seconds_stand_at_the_end_of_a_minute() {
    assert!(ts(59, 1_000_000_000, 0).is_representable());
    assert!(ts(59, 1_999_999_999, 0).is_representable());
    assert!(!ts(58, 1_000_000_000, 0).is_representable());
    assert!(!ts(60, 1_000_000_000, 0).is_representable());
    assert!(ts(-1, 1_000_000_000, 0).is_representable());
    assert!(!ts(-2, 1_000_000_000, 0).is_representable());
    assert!(ts(-61, 1_500_000_000, 0).is_representable());
    for secs in [59i64, 58, -1, -2, -61, 119, 120] {
        assert_eq!(
            ts(secs, 1_000_000_000, 0).is_representable(),
            DateTime::from_timestamp(secs, 1_000_000_000).is_some()
        );
    }
}

#[test]
fn well_formed_needs_a_small_offset_and_a_civil_time_in_range() {
    assert!(ts(0, 0, 0).is_well_formed());
    assert!(ts(0, 0, 86_399).is_well_formed());
    assert!(ts(0, 0, -86_399).is_well_formed());
    assert!(!ts(0, 0, 86_400).is_well_formed());
    assert!(!ts(0, 0, -86_400).is_well_formed());
    assert!(ts(MAX_SECS, 0, 0).is_well_formed());
    assert!(!ts(MAX_SECS, 0, 1).is_well_formed());
    assert!(ts(MAX_SECS, 0, -1).is_well_formed());
    assert!(ts(MIN_SECS, 0, 0).is_well_formed());
    assert!(!ts(MIN_SECS, 0, -1).is_well_formed());
    assert!(ts(MIN_SECS, 0, 1).is_well_formed());
    assert!(!ts(MAX_SECS + 1, 0, -3600).is_well_formed());
    assert!(!ts(0, 2_000_000_000, 0).is_well_formed());
}

#[test]
fn well_formed_timestamps_at_the_edges_are_written_without_panic() {
    for t in [ts(MAX_SECS, 999_999_999, 0), ts(MIN_SECS, 0, 0), ts(MAX_SECS - 3600, 0, 3600)] {
        assert!(t.is_well_formed());
        let zone = FixedOffset::east_opt(t.offset).unwrap();
        let dt = DateTime::from_timestamp(t.secs, t.nanos).unwrap().with_timezone(&zone);
        assert!(!dt.to_rfc3339_opts(chrono::SecondsFormat::AutoSi, true).is_empty());
    }
}
