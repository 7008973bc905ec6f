use chrono::{DateTime, Utc};
use note_parser::instant::{
    time_from_string, Timestamp, LAST_COMMON_SECOND, MAX_SECONDS, MIN_SECONDS,
};

#[test]
fn seconds_that_chrono_holds() {
    assert_eq!(Timestamp::from_seconds(0), Some(Timestamp { seconds: 0 }));
    assert_eq!(Timestamp::from_seconds(1689341301), Some(Timestamp { seconds: 1689341301 }));
    assert_eq!(Timestamp::from_seconds(-86400), Some(Timestamp { seconds: -86400 }));
}

#[test]
fn seconds_that_chrono_does_not_hold() {
    assert_eq!(Timestamp::from_seconds(i64::MAX), None);
    assert_eq!(Timestamp::from_seconds(i64::MIN), None);
    assert_eq!(Timestamp::from_seconds(i64::MAX / 1000), None);
}

#[test]
fn the_range_is_the_one_of_chrono() {
    assert_eq!(MIN_SECONDS, DateTime::<Utc>::MIN_UTC.timestamp());
    assert_eq!(MAX_SECONDS, DateTime::<Utc>::MAX_UTC.timestamp());
    assert_eq!(MIN_SECONDS, -8_334_601_228_800);
    assert_eq!(MAX_SECONDS, 8_210_266_876_799);
    assert!(DateTime::<Utc>::from_timestamp(MIN_SECONDS, 0).is_some());
    assert!(DateTime::<Utc>::from_timestamp(MIN_SECONDS - 1, 0).is_none());
    assert!(DateTime::<Utc>::from_timestamp(MAX_SECONDS, 0).is_some());
    assert!(DateTime::<Utc>::from_timestamp(MAX_SECONDS + 1, 0).is_none());
    let last = "9999-12-31T23:59:59Z".parse::<DateTime<Utc>>().unwrap();
    assert_eq!(LAST_COMMON_SECOND, last.timestamp());
}

#[test]
fn the_first_and_last_second() {
    assert_eq!(Timestamp::from_seconds(MIN_SECONDS), Some(Timestamp { seconds: MIN_SECONDS }));
    assert_eq!(Timestamp::from_seconds(MAX_SECONDS), Some(Timestamp { seconds: MAX_SECONDS }));
    assert_eq!(Timestamp::from_seconds(MIN_SECONDS - 1), None);
    assert_eq!(Timestamp::from_seconds(MAX_SECONDS + 1), None);
    assert_eq!(Timestamp::from_millis(MAX_SECONDS * 1000 + 999), Some(Timestamp { seconds: MAX_SECONDS }));
    assert_eq!(Timestamp::from_millis(MAX_SECONDS * 1000 + 1000), None);
    assert_eq!(Timestamp::from_millis(MIN_SECONDS * 1000 - 999), Some(Timestamp { seconds: MIN_SECONDS }));
    assert_eq!(Timestamp::from_millis(MIN_SECONDS * 1000 - 1000), None);
}

#[test]
fn every_count_of_the_common_era_has_its_instant() {
    let counts: [i64; 8] =
        [0, 1, 999, 1000, 1689341301642, 253402300799000, 253402300799998, 253402300799999];
    for millis in counts {
        let instant = time_from_string(&millis.to_string()).unwrap();
        assert_eq!(instant.seconds, millis / 1000);
        let utc = DateTime::<Utc>::from_timestamp(instant.seconds, 0).unwrap();
        assert_eq!(utc.timestamp_subsec_nanos(), 0);
        assert_eq!(utc.timestamp_millis() % 1000, 0);
        assert!(utc.timestamp_millis() <= millis && millis - utc.timestamp_millis() < 1000);
        assert_eq!(utc.timezone(), Utc);
    }
}

#[test]
fn the_last_second_that_chrono_holds() {
    let last = DateTime::<Utc>::MAX_UTC.timestamp();
    assert_eq!(Timestamp::from_seconds(last), Some(Timestamp { seconds: last }));
    assert_eq!(Timestamp::from_seconds(last + 1), None);
    let first = DateTime::<Utc>::MIN_UTC.timestamp();
    assert_eq!(Timestamp::from_seconds(first), Some(Timestamp { seconds: first }));
    assert_eq!(Timestamp::from_seconds(first - 1), None);
}

#[test]
fn milliseconds_are_cut_to_whole_seconds() {
    assert_eq!(Timestamp::from_millis(1689341301642), Some(Timestamp { seconds: 1689341301 }));
    assert_eq!(Timestamp::from_millis(0), Some(Timestamp { seconds: 0 }));
    assert_eq!(Timestamp::from_millis(999), Some(Timestamp { seconds: 0 }));
    assert_eq!(Timestamp::from_millis(1000), Some(Timestamp { seconds: 1 }));
    assert_eq!(Timestamp::from_millis(1999), Some(Timestamp { seconds: 1 }));
}

#[test]
fn negative_milliseconds_are_cut_towards_zero() {
    assert_eq!(Timestamp::from_millis(-1), Some(Timestamp { seconds: 0 }));
    assert_eq!(Timestamp::from_millis(-999), Some(Timestamp { seconds: 0 }));
    assert_eq!(Timestamp::from_millis(-1000), Some(Timestamp { seconds: -1 }));
    assert_eq!(Timestamp::from_millis(-1500), Some(Timestamp { seconds: -1 }));
    assert_eq!(Timestamp::from_millis(-2000), Some(Timestamp { seconds: -2 }));
}

#[test]
fn milliseconds_beyond_the_calendar() {
    assert_eq!(Timestamp::from_millis(i64::MAX), None);
    assert_eq!(Timestamp::from_millis(i64::MIN), None);
}

#[test]
fn time_from_text() {
    assert_eq!(time_from_string("1689341301642"), Some(Timestamp { seconds: 1689341301 }));
    assert_eq!(time_from_string("+2500"), Some(Timestamp { seconds: 2 }));
    assert_eq!(time_from_string("-2500"), Some(Timestamp { seconds: -2 }));
    assert_eq!(time_from_string(""), None);
    assert_eq!(time_from_string("soon"), None);
    assert_eq!(time_from_string("1689341301642 "), None);
    assert_eq!(time_from_string("9223372036854775807"), None);
    assert_eq!(time_from_string("9223372036854775808"), None);
}

#[test]
fn the_instant_is_the_one_chrono_reads() {
    let instant = time_from_string("1689341301642").unwrap();
    let expected = "2023-07-14T13:28:21Z".parse::<DateTime<Utc>>().unwrap();
    assert_eq!(DateTime::<Utc>::from_timestamp(instant.seconds, 0), Some(expected));
    assert_eq!(instant.seconds, expected.timestamp());
}

#[test]
fn instants_are_ordered_by_time() {
    let early = Timestamp::from_seconds(1).unwrap();
    let late = Timestamp::from_seconds(2).unwrap();
    assert!(early < late);
    assert_eq!(early, early.clone());
}
