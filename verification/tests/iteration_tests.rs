use spv::iteration::{IterationTracker, Span};

#[test]
fn iteration_test_should_correctly_define_span_when_creating_from_begin() {
    let span = Span::from_begin(60);

    assert_eq!(span.begin(), 60);
    assert_eq!(span.end(), 60);
    assert_eq!(span.size(), 1);
}

#[test]
fn test_should_correctly_define_span_when_creating_from_size() {
    let span = Span::from_size(60);

    assert_eq!(span.begin(), 0);
    assert_eq!(span.end(), 0);
    assert_eq!(span.size(), 60);
}

#[test]
fn test_should_update_begin_when_setting_end_and_updating_begin() {
    let mut span = Span::from_size(60);
    span.set_end_and_shift(180);

    assert_eq!(span.begin(), 121);
}

#[test]
fn test_should_prevent_underflow_when_setting_end_and_updating_begin() {
    let mut span = Span::from_size(60);
    span.set_end_and_shift(30);

    assert_eq!(span.begin(), 0);
}

#[test]
fn test_should_update_end_when_setting_end_and_updating_begin() {
    let mut span = Span::from_size(60);
    span.set_end_and_shift(180);

    assert_eq!(span.end(), 180);
}

#[test]
fn test_should_not_update_size_when_setting_end_and_updating_begin() {
    let mut span = Span::from_size(60);
    span.set_end_and_shift(180);

    assert_eq!(span.size(), 60);
}

#[test]
fn test_should_update_size_when_setting_end_and_updating_size() {
    let mut span = Span::from_begin(121);
    span.set_end_and_resize(240);

    assert_eq!(span.size(), 120);
}

#[test]
fn test_should_update_end_when_setting_end_and_updating_size() {
    let mut span = Span::from_begin(121);
    span.set_end_and_resize(180);

    assert_eq!(span.end(), 180);
}

#[test]
fn test_should_not_update_begin_when_setting_end_and_updating_size() {
    let mut span = Span::from_begin(121);
    span.set_end_and_resize(180);

    assert_eq!(span.begin(), 121);
}

#[test]
fn test_should_return_true_if_spans_intersect() {
    let span = Span::new(100, 199);

    for (begin_other, end_other) in [(50, 250), (50, 100), (120, 170), (199, 250)] {
        let other_span = Span::new(begin_other, end_other);
        assert!(span.intersects(&other_span));
    }
}

#[test]
fn test_should_return_false_if_spans_do_not_intersect() {
    let span = Span::new(100, 199);

    for (begin_other, end_other) in [(50, 75), (250, 275)] {
        let other_span = Span::new(begin_other, end_other);
        assert!(!span.intersects(&other_span));
    }
}

#[test]
fn test_should_return_negative_begin_when_size_greater_than_end() {
    let mut span = Span::from_size(60);
    span.set_end_and_shift(30);

    assert_eq!(span.signed_begin(), -29);
}

#[test]
fn test_should_return_positive_begin_when_size_less_than_end() {
    let mut span = Span::from_size(60);
    span.set_end_and_shift(120);

    assert_eq!(span.signed_begin(), 61);
}

#[test]
fn test_should_scroll_to_the_right() {
    let mut span = Span::new(10, 20);
    span.scroll(100, 10);

    assert_eq!(span, Span::new(20, 30));
}

#[test]
fn test_should_scroll_to_the_left() {
    let mut span = Span::new(20, 30);
    span.scroll(100, -10);

    assert_eq!(span, Span::new(10, 20));
}

#[test]
fn test_should_not_scroll_before_iteration_0() {
    let mut span = Span::new(20, 30);
    span.scroll(100, -50);

    assert_eq!(span, Span::new(0, 10));
}

#[test]
fn test_should_not_scroll_after_current_iteration() {
    let mut span = Span::new(20, 30);
    span.scroll(100, 100);

    assert_eq!(span, Span::new(90, 100));
}

#[test]
fn test_should_be_fully_scrolled_to_the_right_by_default() {
    let span = Span::from_size(60);

    assert!(span.is_fully_scrolled_right(0));
}

#[test]
fn test_should_be_fully_scrolled_to_the_right_when_shifted_to_current_iteration() {
    let mut span = Span::from_size(60);
    span.set_end_and_shift(1);

    assert!(span.is_fully_scrolled_right(1));
}

#[test]
fn test_should_not_be_fully_scrolled_to_the_right_when_not_ends_at_current_iteration() {
    let span = Span::from_size(60);

    assert!(!span.is_fully_scrolled_right(1));
}

#[test]
fn tracker_starts_at_iteration_zero_and_counts_ticks() {
    let mut tracker = IterationTracker::new();
    assert_eq!(tracker.current(), 0);

    tracker.tick();
    tracker.tick();

    assert_eq!(tracker.current(), 2);
    assert_eq!(IterationTracker::default().current(), 0);
}

#[test]
fn span_from_end_and_size_covers_the_last_iterations() {
    let span = Span::from_end_and_size(100, 10);

    assert_eq!(span.begin(), 91);
    assert_eq!(span.end(), 100);
    assert_eq!(span.size(), 10);
}

#[test]
fn scrolling_a_span_keeps_its_size() {
    let mut span = Span::new(40, 59);
    span.scroll(1000, 250);

    assert_eq!(span.size(), 20);
    assert_eq!(span.end(), 309);
}
