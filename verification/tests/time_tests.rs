use spv::time::{Span, Timestamp};

/// The current time of the tests: one year after the clock's origin, so that subtracting from it
/// cannot underflow
fn now() -> Timestamp {
    Timestamp::from_millis(365 * 24 * 3600 * 1000)
}

#[test]
fn test_should_correctly_calculate_duration_between_timestamps() {
    let timestamp_1 = now();
    let timestamp_2 = timestamp_1.add(1234);

    assert_eq!(timestamp_2.duration_since(&timestamp_1), 1234);
}

#[test]
fn test_should_correctly_substract_duration_from_timestamp() {
    let timestamp_1 = now();
    let timestamp_2 = timestamp_1.add(123);

    assert_eq!(timestamp_2.duration_since(&timestamp_1), 123);
    assert_eq!(timestamp_2.sub(123), timestamp_1);
}

#[test]
fn test_should_produce_different_stamps_on_different_iterations() {
    let timestamp_1 = now();
    let timestamp_2 = now().add(1000);

    assert!(timestamp_1 < timestamp_2);
    assert!(timestamp_1.is_before(&timestamp_2));
    assert!(!timestamp_2.is_before(&timestamp_1));
}

#[test]
fn duration_since_a_later_timestamp_is_zero() {
    assert_eq!(now().duration_since(&now().add(10)), 0);
}

#[test]
fn time_test_should_correctly_define_span_when_creating_from_begin() {
    let span = Span::from_begin(now());

    assert_eq!(span.begin(), now());
    assert_eq!(span.end(), now());
    assert_eq!(span.duration(), 0);
}

#[test]
fn test_should_correctly_define_span_when_creating_from_duration() {
    let span = Span::from_duration(now(), 10_000);

    assert_eq!(span.end(), now());
    assert_eq!(span.begin(), span.end().sub(10_000));
    assert_eq!(span.duration(), 10_000);
}

#[test]
fn test_should_update_span_when_setting_end_and_updating_begin() {
    let mut span = Span::from_duration(now(), 60_000);
    let initial_span = span;
    span.set_end_and_shift(span.end().add(120_000));

    assert_eq!(span.begin(), initial_span.begin().add(120_000));
    assert_eq!(span.end(), initial_span.end().add(120_000));
    assert_eq!(span.duration(), 60_000);
}

#[test]
fn test_should_update_span_when_setting_begin_and_updating_size() {
    let mut span = Span::from_duration(now(), 10_000);
    let initial_span = span;
    span.set_begin_and_resize(span.begin().add(3_000));

    assert_eq!(span.begin(), initial_span.begin().add(3_000));
    assert_eq!(span.end(), initial_span.end());
    assert_eq!(span.duration(), 7_000);
}

#[test]
fn test_should_update_span_when_setting_end_and_updating_size() {
    let mut span = Span::from_begin(now());
    let initial_span = span;
    span.set_end_and_resize(span.end().add(10_000));

    assert_eq!(span.begin(), initial_span.begin());
    assert_eq!(span.end(), initial_span.end().add(10_000));
}

#[test]
fn time_spans_intersect() {
    let span = Span::new(now().add(100_000), now().add(199_000));

    for (begin_other, end_other) in [(50, 250), (50, 100), (120, 170), (199, 250)] {
        let other_span = Span::new(now().add(begin_other * 1000), now().add(end_other * 1000));
        assert!(span.intersects(&other_span));
        assert!(other_span.intersects(&span));
    }
}

#[test]
fn time_spans_do_not_intersect() {
    let span = Span::new(now().add(100_000), now().add(199_000));

    for (begin_other, end_other) in [(50, 75), (250, 275)] {
        let other_span = Span::new(now().add(begin_other * 1000), now().add(end_other * 1000));
        assert!(!span.intersects(&other_span));
        assert!(!other_span.intersects(&span));
    }
}

#[test]
fn timestamp_contained_in_span() {
    let timestamp = now();

    for (before, after) in [(10_000, 10_000), (0, 10_000), (10_000, 0)] {
        let span = Span::new(timestamp.sub(before), timestamp.add(after));
        assert!(span.contains(timestamp));
    }
}

#[test]
fn timestamp_not_contained_in_span() {
    let timestamp = now();
    let span = Span::new(timestamp.add(1_000), timestamp.add(20_000));

    assert!(!span.contains(timestamp));
}

#[test]
fn timestamp_round_trips_through_millis() {
    assert_eq!(Timestamp::from_millis(42).as_millis(), 42);
}
