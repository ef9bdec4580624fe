use chrono::{DateTime, Duration, Utc};

use zeitschaltuhr::time::{
    Instant, Span, UtcOffset, MAX_SPAN_SECONDS, MAX_TIMESTAMP, MIN_TIMESTAMP, NANOS_PER_SEC,
};

#[test]
fn that_the_range_of_instants_is_the_range_of_dates() {
    assert_eq!(MIN_TIMESTAMP, DateTime::<Utc>::MIN_UTC.timestamp());
    assert_eq!(MAX_TIMESTAMP, DateTime::<Utc>::MAX_UTC.timestamp());
    assert!(DateTime::from_timestamp(MIN_TIMESTAMP, 0).is_some());
    assert!(DateTime::from_timestamp(MIN_TIMESTAMP - 1, 999_999_999).is_none());
    assert!(DateTime::from_timestamp(MAX_TIMESTAMP, 999_999_999).is_some());
    assert!(DateTime::from_timestamp(MAX_TIMESTAMP + 1, 0).is_none());
}

#[test]
fn that_the_longest_span_is_the_longest_whole_second_duration() {
    assert_eq!(MAX_SPAN_SECONDS, i64::MAX / 1_000);
    assert!(Duration::try_seconds(MAX_SPAN_SECONDS).is_some());
    assert!(Duration::try_seconds(MAX_SPAN_SECONDS + 1).is_none());
    assert!(Duration::try_seconds(-MAX_SPAN_SECONDS).is_some());
    assert!(Duration::try_seconds(-MAX_SPAN_SECONDS - 1).is_none());
    assert_eq!(NANOS_PER_SEC, 1_000_000_000);
}

#[test]
fn that_an_instant_is_built_within_the_range_only() {
    assert!(Instant::new(MIN_TIMESTAMP, 0).is_some());
    assert!(Instant::new(MIN_TIMESTAMP - 1, 0).is_none());
    assert!(Instant::new(MAX_TIMESTAMP, 999_999_999).is_some());
    assert!(Instant::new(MAX_TIMESTAMP + 1, 0).is_none());
    assert!(Instant::new(0, 1_000_000_000).is_none());
    assert!(Instant::new(i64::MAX, 0).is_none());
    assert!(Instant::new(i64::MIN, 0).is_none());
}

#[test]
fn that_an_instant_gives_back_its_parts() {
    let at = Instant::new(-5, 250_000_000).unwrap();

    assert_eq!(at.timestamp(), -5);
    assert_eq!(at.timestamp_subsec_nanos(), 250_000_000);
}

#[test]
fn that_a_reading_out_of_range_is_clamped() {
    assert_eq!(Instant::clamped(i64::MAX, 7), Instant::new(MAX_TIMESTAMP, 7).unwrap());
    assert_eq!(Instant::clamped(i64::MIN, 7), Instant::new(MIN_TIMESTAMP, 7).unwrap());
    assert_eq!(
        Instant::clamped(59, 1_500_000_000),
        Instant::new(59, 999_999_999).unwrap()
    );
    assert_eq!(Instant::clamped(12, 34), Instant::new(12, 34).unwrap());
}

#[test]
fn that_instants_are_ordered_by_time() {
    let early = Instant::new(10, 999_999_999).unwrap();
    let late = Instant::new(11, 0).unwrap();

    assert!(early.is_before(&late));
    assert!(!late.is_before(&early));
    assert!(!early.is_before(&early));
    assert!(early < late);
    assert!(Instant::new(-1, 5).unwrap() < Instant::new(0, 0).unwrap());
}

#[test]
fn that_a_span_is_built_from_parts_that_agree() {
    assert!(Span::new(1, 500_000_000).is_some());
    assert!(Span::new(-1, -500_000_000).is_some());
    assert!(Span::new(0, -1).is_some());
    assert!(Span::new(0, 1).is_some());
    assert!(Span::new(1, -1).is_none());
    assert!(Span::new(-1, 1).is_none());
    assert!(Span::new(0, 1_000_000_000).is_none());
    assert!(Span::new(0, -1_000_000_000).is_none());
    assert!(Span::new(MAX_SPAN_SECONDS, 0).is_some());
    assert!(Span::new(MAX_SPAN_SECONDS, 1).is_none());
    assert!(Span::new(-MAX_SPAN_SECONDS, 0).is_some());
    assert!(Span::new(-MAX_SPAN_SECONDS, -1).is_none());
    assert!(Span::new(MAX_SPAN_SECONDS + 1, 0).is_none());
    assert!(Span::seconds(MAX_SPAN_SECONDS + 1).is_none());
    assert_eq!(Span::seconds(90), Span::new(90, 0));
}

#[test]
fn that_a_span_gives_back_its_parts() {
    let negative = Span::new(-1, -200_000_000).unwrap();
    let positive = Span::new(3, 5).unwrap();
    let zero = Span::seconds(0).unwrap();

    assert_eq!(negative.num_seconds(), -1);
    assert_eq!(negative.subsec_nanos(), -200_000_000);
    assert!(negative.is_negative());
    assert!(!negative.is_zero());
    assert_eq!(positive.num_seconds(), 3);
    assert_eq!(positive.subsec_nanos(), 5);
    assert!(!positive.is_negative());
    assert!(zero.is_zero());
    assert!(!zero.is_negative());
    assert!(Span::new(0, -1).unwrap().is_negative());
}

#[test]
fn that_spans_are_ordered_by_length() {
    assert!(Span::new(-1, -5).unwrap() < Span::new(-1, 0).unwrap());
    assert!(Span::new(-1, 0).unwrap() < Span::new(0, -999_999_999).unwrap());
    assert!(Span::new(0, -5).unwrap() < Span::new(0, 3).unwrap());
    assert!(Span::new(0, 999_999_999).unwrap() < Span::new(1, 0).unwrap());
}

#[test]
fn that_adding_a_span_carries_the_nanoseconds() {
    let at = Instant::new(10, 600_000_000).unwrap();

    assert_eq!(
        at.checked_add(&Span::new(1, 500_000_000).unwrap()),
        Instant::new(12, 100_000_000)
    );
    assert_eq!(
        at.checked_add(&Span::new(-1, -700_000_000).unwrap()),
        Instant::new(8, 900_000_000)
    );
    assert_eq!(at.checked_add(&Span::seconds(0).unwrap()), Some(at));
    assert_eq!(
        Instant::new(-1, 0).unwrap().checked_add(&Span::new(0, 1).unwrap()),
        Instant::new(-1, 1)
    );
}

#[test]
fn that_adding_a_span_stops_at_the_ends_of_the_range() {
    let last = Instant::new(MAX_TIMESTAMP, 999_999_999).unwrap();
    let first = Instant::new(MIN_TIMESTAMP, 0).unwrap();

    assert_eq!(last.checked_add(&Span::new(0, 1).unwrap()), None);
    assert_eq!(first.checked_add(&Span::new(0, -1).unwrap()), None);
    assert_eq!(
        last.checked_add(&Span::new(0, -999_999_999).unwrap()),
        Instant::new(MAX_TIMESTAMP, 0)
    );
    assert_eq!(
        first.checked_add(&Span::seconds(MAX_TIMESTAMP - MIN_TIMESTAMP).unwrap()),
        Instant::new(MAX_TIMESTAMP, 0)
    );
    assert_eq!(
        first.checked_add(&Span::seconds(MAX_TIMESTAMP - MIN_TIMESTAMP + 1).unwrap()),
        None
    );
}

#[test]
fn that_the_span_until_a_later_instant_is_their_distance() {
    let now = Instant::new(100, 700_000_000).unwrap();
    let later = Instant::new(103, 200_000_000).unwrap();

    assert_eq!(now.span_until(&later), Span::new(2, 500_000_000).unwrap());
    assert_eq!(later.span_until(&now), Span::seconds(0).unwrap());
    assert_eq!(now.span_until(&now), Span::seconds(0).unwrap());
    assert_eq!(
        Instant::new(MIN_TIMESTAMP, 0)
            .unwrap()
            .span_until(&Instant::new(MAX_TIMESTAMP, 999_999_999).unwrap()),
        Span::new(MAX_TIMESTAMP - MIN_TIMESTAMP, 999_999_999).unwrap()
    );
}

#[test]
fn that_an_offset_stays_below_one_day() {
    assert!(UtcOffset::new(86_399).is_some());
    assert!(UtcOffset::new(-86_399).is_some());
    assert!(UtcOffset::new(86_400).is_none());
    assert!(UtcOffset::new(-86_400).is_none());
    assert_eq!(UtcOffset::new(7_200).unwrap().east_seconds(), 7_200);
    assert_eq!(UtcOffset::utc(), UtcOffset::new(0).unwrap());
}
