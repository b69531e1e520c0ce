use spv::ctrl::Effect;
use spv::labels::{metadata_text, process_criteria_description, process_criteria_label, relative_timestamp_label};
use spv::ordering::ProcessOrdering;
use spv::process::ProcessMetadata;
use spv::layout::{centered_area, Area, UiLayout};
use spv::time::Timestamp;

fn now() -> Timestamp {
    Timestamp::from_millis(365 * 24 * 3600 * 1000)
}

fn label_of_delta_ms(delta_in_ms: u64) -> String {
    relative_timestamp_label(now(), now().sub(delta_in_ms))
}

#[test]
fn test_should_be_now_when_delta_is_under_1_sec() {
    for delta_in_ms in [0, 200, 999] {
        assert_eq!(label_of_delta_ms(delta_in_ms), "now".to_string());
    }
}

#[test]
fn test_should_be_n_sec_ago_when_delta_is_n_sec() {
    for n in [1u64, 2, 10] {
        assert_eq!(label_of_delta_ms(n * 1000), format!("{}s ago", n));
    }
}

#[test]
fn test_should_include_two_components_at_most() {
    let cases = [
        (60, "1m 0s ago"),
        (75, "1m 15s ago"),
        (3600, "1h 0m ago"),
        (3720, "1h 2m ago"),
        (3725, "1h 2m ago"),
    ];
    for (delta_in_secs, expected) in cases {
        assert_eq!(label_of_delta_ms(delta_in_secs * 1000), expected);
    }
}

#[test]
fn test_should_display_hour_and_minute_when_under_100_hours() {
    assert_eq!(label_of_delta_ms((99 * 60 * 60 + 300) * 1000), "99h 5m ago");
}

#[test]
fn test_should_display_only_hour_when_greater_than_99_hours() {
    assert_eq!(label_of_delta_ms((100 * 60 * 60 + 300) * 1000), "100h ago");
}

#[test]
fn should_return_centered_area() {
    let parent_area = Area::new(5, 5, 15, 15);
    let centered_area = centered_area(parent_area, 5, 5);

    assert_eq!(centered_area, Area::new(10, 10, 5, 5));
}

#[test]
fn should_handle_case_where_parent_area_smaller_than_given_dimensions() {
    let parent_area = Area::new(0, 0, 10, 10);
    let centered_area = centered_area(parent_area, 20, 20);

    assert_eq!(centered_area, Area::new(0, 0, 10, 10));
}

#[test]
fn centered_area_rounds_toward_the_top_left_corner() {
    let centered_area = centered_area(Area::new(0, 0, 10, 7), 3, 2);

    assert_eq!(centered_area, Area::new(3, 2, 3, 2));
}

#[test]
fn large_centered_areas_are_clipped_by_the_terminal() {
    let centered_area = centered_area(Area::new(0, 0, 300, 300), 300, 300);

    assert_eq!((centered_area.x, centered_area.y), (0, 0));
    assert!(centered_area.width < 300 && centered_area.height < 300);
    assert!(centered_area.width as u32 * centered_area.height as u32 <= u16::MAX as u32);
}

#[test]
fn screen_is_split_into_rows_then_columns() {
    let layout = UiLayout::new(Area::new(0, 0, 100, 40));

    assert_eq!(layout.tabs_chunk(), Area::new(0, 0, 100, 1));
    assert_eq!(layout.metadata_chunk(), Area::new(0, 39, 100, 1));
    assert_eq!(layout.processes_chunk(), Area::new(0, 1, 30, 38));
    assert_eq!(layout.chart_chunk(), Area::new(30, 1, 70, 38));
}

#[test]
fn screen_split_starts_at_the_corner_of_the_region() {
    let layout = UiLayout::new(Area::new(2, 3, 50, 10));

    assert_eq!(layout.tabs_chunk(), Area::new(2, 3, 50, 1));
    assert_eq!(layout.processes_chunk(), Area::new(2, 4, 30, 8));
    assert_eq!(layout.chart_chunk(), Area::new(32, 4, 20, 8));
    assert_eq!(layout.metadata_chunk(), Area::new(2, 12, 50, 1));
}

#[test]
fn label_of_the_current_instant_is_now() {
    assert_eq!(relative_timestamp_label(now(), now()), "now");
}

#[test]
fn screen_too_small_for_all_rows_still_has_every_region() {
    let layout = UiLayout::new(Area::new(0, 0, 10, 2));

    for area in [layout.tabs_chunk(), layout.processes_chunk(), layout.chart_chunk(), layout.metadata_chunk()] {
        assert!(area.x + area.width <= 10);
        assert!(area.y + area.height <= 2);
    }
}

#[test]
fn criteria_have_labels_and_descriptions() {
    assert_eq!(process_criteria_label(ProcessOrdering::CurrentMetric), "Current metric");
    assert_eq!(process_criteria_label(ProcessOrdering::Pid), "Process ID");
    assert_eq!(process_criteria_label(ProcessOrdering::Command), "Command");
    assert_eq!(
        process_criteria_description(ProcessOrdering::Pid),
        "Order processes by their pid, in an ascending order"
    );
}

#[test]
fn metadata_bar_shows_the_last_effect_then_the_selected_process() {
    let pm = ProcessMetadata::new(42, 0, "top");

    assert_eq!(metadata_text(Effect::ProcessesSorted(ProcessOrdering::Command), Some(&pm)), "Processes sorted by Command");
    assert_eq!(metadata_text(Effect::NoEffect, Some(&pm)), "top - PID: 42 - Status: running");
    assert_eq!(metadata_text(Effect::NoEffect, None), "No process is currently selected");
}
