use spv::ctrl::collectors::Collectors;
use spv::ctrl::processes::ProcessSelector;
use spv::ctrl::span::RenderingSpan;
use spv::ctrl::{Controls, Effect, State};
use spv::input::Input;
use spv::ordering::{process_ordering_criteria, ProcessOrdering, SortCriteriaSelector};
use spv::process::ProcessMetadata;
use spv::time::Timestamp;

const CURRENT_MS: u64 = 365 * 24 * 3600 * 1000;

fn now() -> Timestamp {
    Timestamp::from_millis(CURRENT_MS)
}

fn app_init() -> Timestamp {
    Timestamp::from_millis(CURRENT_MS - 300 * 1000)
}

fn processes() -> Vec<ProcessMetadata> {
    vec![
        ProcessMetadata::new(1, 0, "cmd_1"),
        ProcessMetadata::new(2, 0, "cmd_2"),
        ProcessMetadata::new(3, 0, "cmd_3"),
    ]
}

fn controls() -> Controls<&'static str> {
    Controls::new(vec!["cpu", "disk"], 60_000, 1_000, now())
}

#[test]
fn test_should_have_no_selected_process_when_no_process_defined() {
    let selector = ProcessSelector::default();

    assert_eq!(selector.selected_process(), None);
}

#[test]
fn test_should_select_first_process_by_default() {
    let processes = processes();
    let mut selector = ProcessSelector::default();
    selector.set_processes(processes.as_slice());

    assert_eq!(selector.selected_process(), Some(&processes[0]));
}

#[test]
fn test_should_select_next_process() {
    let processes = processes();
    let mut selector = ProcessSelector::default();
    selector.set_processes(processes.as_slice());
    selector.next_process();

    assert_eq!(selector.selected_process(), Some(&processes[1]));
}

#[test]
fn test_should_select_previous_process() {
    let processes = processes();
    let mut selector = ProcessSelector::default();
    selector.set_processes(processes.as_slice());
    selector.next_process();
    selector.previous_process();

    assert_eq!(selector.selected_process(), Some(&processes[0]));
}

#[test]
fn test_should_lock_at_first_process() {
    let processes = processes();
    let mut selector = ProcessSelector::default();
    selector.set_processes(processes.as_slice());
    selector.previous_process();

    assert_eq!(selector.selected_process(), Some(&processes[0]));
}

#[test]
fn test_should_lock_at_last_process() {
    let processes = processes();
    let mut selector = ProcessSelector::default();
    selector.set_processes(processes.as_slice());
    (0..10).for_each(|_| selector.next_process());

    assert_eq!(selector.selected_process(), Some(processes.last().unwrap()));
}

#[test]
fn selection_follows_the_pid_when_processes_are_reordered() {
    let mut processes = processes();
    let mut selector = ProcessSelector::default();
    selector.set_processes(processes.as_slice());
    selector.next_process();

    processes.reverse();
    selector.set_processes(processes.as_slice());

    assert_eq!(selector.selected_process().map(|pm| pm.pid()), Some(2));
}

#[test]
fn collectors_cycle() {
    let mut collectors = Collectors::new(vec!["a", "b", "c"]);
    assert_eq!(*collectors.current(), "a");

    collectors.previous_collector();
    assert_eq!(*collectors.current(), "c");

    collectors.next_collector();
    collectors.next_collector();
    assert_eq!(*collectors.current(), "b");
    assert_eq!(collectors.selected_index(), 1);
    assert_eq!(collectors.as_slice(), &["a", "b", "c"]);
}

#[test]
fn test_should_end_at_current_timestamp_by_default() {
    let rendering_span = RenderingSpan::new(60_000, 1_000, now());

    assert_eq!(rendering_span.to_span().end(), now());
    assert_eq!(rendering_span.tolerance(), 1_000);
    assert_eq!(rendering_span.to_span().begin(), now().sub(61_000));
}

#[test]
fn span_test_should_scroll_to_the_right() {
    let mut rendering_span = RenderingSpan::new(60_000, 1_000, now());
    let initial_span = rendering_span.to_span();

    let later = now().add(10_000);
    rendering_span.scroll_right(later, app_init());
    let new_span = rendering_span.to_span();

    assert!(new_span.begin() > initial_span.begin());
    assert!(new_span.end() > initial_span.end());
    assert_eq!(initial_span.duration(), new_span.duration());
}

#[test]
fn test_should_not_scroll_past_the_current_timestamp() {
    let mut rendering_span = RenderingSpan::new(60_000, 1_000, now());
    let initial_span = rendering_span.to_span();

    rendering_span.scroll_right(now(), app_init());

    assert_eq!(rendering_span.to_span(), initial_span);
}

#[test]
fn span_test_should_scroll_to_the_left() {
    let mut rendering_span = RenderingSpan::new(60_000, 1_000, now());
    let initial_span = rendering_span.to_span();

    rendering_span.scroll_left(now(), app_init());
    let new_span = rendering_span.to_span();

    assert_eq!(new_span.end(), initial_span.end().sub(1_000));
    assert_eq!(initial_span.duration(), new_span.duration());
}

#[test]
fn test_should_not_scroll_before_the_start_of_the_application() {
    let mut rendering_span = RenderingSpan::new(60_000, 1_000, now());

    for _ in 0..1000 {
        rendering_span.scroll_left(now(), app_init());
    }

    assert_eq!(rendering_span.to_span().end(), app_init().add(60_000));
}

#[test]
fn a_scrolled_span_stops_following_until_reset() {
    let mut rendering_span = RenderingSpan::new(60_000, 1_000, now());
    rendering_span.scroll_left(now(), app_init());

    let later = now().add(5_000);
    rendering_span.refresh(later);
    assert_eq!(rendering_span.to_span().end(), now().sub(1_000));

    rendering_span.reset_scroll(later);
    assert_eq!(rendering_span.to_span().end(), later);

    let even_later = later.add(5_000);
    rendering_span.refresh(even_later);
    assert_eq!(rendering_span.to_span().end(), even_later);
}

#[test]
fn sort_criteria_are_browsed_then_applied() {
    let mut selector = SortCriteriaSelector::default();
    assert_eq!(selector.applied(), ProcessOrdering::CurrentMetric);

    selector.next();
    selector.next();
    selector.next();
    assert_eq!(selector.selected(), ProcessOrdering::Command);
    assert_eq!(selector.applied(), ProcessOrdering::CurrentMetric);

    selector.previous();
    selector.apply();
    assert_eq!(selector.applied(), ProcessOrdering::Pid);

    assert_eq!(
        process_ordering_criteria(),
        vec![ProcessOrdering::CurrentMetric, ProcessOrdering::Pid, ProcessOrdering::Command]
    );
}

#[test]
fn spv_inputs_move_the_selections() {
    let mut controls = controls();
    controls.set_processes(&processes());

    assert_eq!(controls.interpret_input(Input::Right, now(), app_init()), Effect::NoEffect);
    assert_eq!(*controls.current_collector(), "disk");
    controls.interpret_input(Input::Right, now(), app_init());
    assert_eq!(*controls.current_collector(), "cpu");
    controls.interpret_input(Input::Left, now(), app_init());
    assert_eq!(controls.current_collector_index(), 1);

    controls.interpret_input(Input::Down, now(), app_init());
    assert_eq!(controls.process_selector().selected_process().map(|pm| pm.pid()), Some(2));
    controls.interpret_input(Input::Up, now(), app_init());
    assert_eq!(controls.process_selector().selected_process().map(|pm| pm.pid()), Some(1));

    controls.interpret_input(Input::AltLeft, now(), app_init());
    assert_eq!(controls.to_span().end(), now().sub(1_000));
    controls.interpret_input(Input::G, now(), app_init());
    assert_eq!(controls.to_span().end(), now());
    assert_eq!(controls.state(), State::Spv);
}

#[test]
fn sorting_prompt_applies_the_selected_criteria_on_submit() {
    let mut controls = controls();

    controls.interpret_input(Input::S, now(), app_init());
    assert_eq!(controls.state(), State::SortingPrompt(ProcessOrdering::CurrentMetric));

    controls.interpret_input(Input::Down, now(), app_init());
    assert_eq!(controls.state(), State::SortingPrompt(ProcessOrdering::Pid));

    // Most inputs are ignored while the prompt is open
    assert_eq!(controls.interpret_input(Input::Right, now(), app_init()), Effect::NoEffect);
    assert_eq!(*controls.current_collector(), "cpu");

    let effect = controls.interpret_input(Input::Submit, now(), app_init());
    assert_eq!(effect, Effect::ProcessesSorted(ProcessOrdering::Pid));
    assert_eq!(controls.state(), State::Spv);
    assert_eq!(controls.process_ordering_criteria(), ProcessOrdering::Pid);
}

#[test]
fn leaving_the_sorting_prompt_keeps_the_applied_criteria() {
    let mut controls = controls();

    controls.interpret_input(Input::S, now(), app_init());
    controls.interpret_input(Input::Down, now(), app_init());
    controls.interpret_input(Input::Down, now(), app_init());
    assert_eq!(controls.state(), State::SortingPrompt(ProcessOrdering::Command));

    assert_eq!(controls.interpret_input(Input::Escape, now(), app_init()), Effect::NoEffect);
    assert_eq!(controls.state(), State::Spv);
    assert_eq!(controls.process_ordering_criteria(), ProcessOrdering::CurrentMetric);

    // The prompt opens on the applied criteria again
    controls.interpret_input(Input::S, now(), app_init());
    assert_eq!(controls.state(), State::SortingPrompt(ProcessOrdering::CurrentMetric));
}

#[test]
fn refreshing_the_span_follows_the_current_time() {
    let mut controls = controls();
    let later = now().add(2_000);
    controls.refresh_span(later);

    assert_eq!(controls.to_span().end(), later);

    let slice = controls.collectors_as_mut_slice();
    slice[1] = "network";
    controls.interpret_input(Input::Right, later, app_init());
    assert_eq!(*controls.current_collector(), "network");
}

#[test]
fn controls_accept_scrolling_within_the_range_of_timestamps() {
    let controls = controls();

    assert!(controls.accepts_input(Input::AltLeft, now(), app_init()));
    assert!(controls.accepts_input(Input::AltRight, now(), app_init()));
    assert!(controls.accepts_input(Input::G, now(), app_init()));
    assert!(controls.accepts_input(Input::Down, now(), app_init()));
}

#[test]
fn controls_refuse_scrolling_past_the_range_of_timestamps() {
    let at_the_end = Timestamp::from_millis(u64::MAX);
    let controls: Controls<&'static str> = Controls::new(vec!["cpu"], 60_000, 1_000, at_the_end);

    assert!(!controls.accepts_input(Input::AltRight, at_the_end, app_init()));
    assert!(controls.accepts_input(Input::AltLeft, at_the_end, app_init()));
    // The span cannot be longer than the time elapsed since the origin of the clock
    assert!(!controls.accepts_input(Input::G, Timestamp::from_millis(10), app_init()));
    assert!(controls.accepts_input(Input::Up, Timestamp::from_millis(10), app_init()));
}
