use std::collections::HashMap;

use spv::ordering::{sort_processes, ProcessOrdering};
use spv::process::{Pid, ProcessMetadata};

fn processes() -> Vec<ProcessMetadata> {
    vec![
        ProcessMetadata::new(1, 0, "c"),
        ProcessMetadata::new(25, 0, "ab"),
        ProcessMetadata::new(2, 0, "aa"),
    ]
}

/// The key of a non-negative metric: the bits of a non-negative float order as the float does
fn metric_key(value: f64) -> u64 {
    value.to_bits()
}

fn no_metrics() -> HashMap<Pid, u64> {
    HashMap::new()
}

#[test]
fn should_sort_running_processes_before_dead_processes() {
    let mut processes = vec![ProcessMetadata::new(1, 0, "cmd_1"), ProcessMetadata::new(2, 0, "cmd_2")];
    processes[0].mark_dead();

    sort_processes(&mut processes, ProcessOrdering::Pid, &no_metrics(), metric_key(0.));

    let sorted_processes_pids: Vec<_> = processes.iter().map(|pm| pm.pid()).collect();
    assert_eq!(&sorted_processes_pids, &[2, 1]);
}

#[test]
fn should_sort_processes_by_their_command() {
    let mut processes = processes();
    sort_processes(&mut processes, ProcessOrdering::Command, &no_metrics(), metric_key(0.));

    let sorted_processes_commands: Vec<_> = processes.iter().map(|pm| pm.command().to_string()).collect();
    assert_eq!(&sorted_processes_commands, &["aa", "ab", "c"]);
}

#[test]
fn should_sort_processes_by_their_pid() {
    let mut processes = processes();
    sort_processes(&mut processes, ProcessOrdering::Pid, &no_metrics(), metric_key(0.));

    let sorted_processes_pids: Vec<_> = processes.iter().map(|pm| pm.pid()).collect();
    assert_eq!(&sorted_processes_pids, &[1, 2, 25]);
}

#[test]
fn should_sort_processes_by_their_current_metric() {
    let mut processes = processes();
    let mut last_metrics = HashMap::new();
    last_metrics.insert(2, metric_key(15.));
    last_metrics.insert(1, metric_key(10.));
    last_metrics.insert(25, metric_key(5.));

    sort_processes(&mut processes, ProcessOrdering::CurrentMetric, &last_metrics, metric_key(0.));

    let sorted_processes_pids: Vec<_> = processes.iter().map(|pm| pm.pid()).collect();
    assert_eq!(&sorted_processes_pids, &[2, 1, 25]);
}

#[test]
fn processes_with_equal_metrics_keep_their_order() {
    let mut processes = vec![
        ProcessMetadata::new(9, 0, "x"),
        ProcessMetadata::new(3, 0, "y"),
        ProcessMetadata::new(5, 0, "z"),
        ProcessMetadata::new(4, 0, "w"),
    ];
    processes[1].mark_dead();
    let mut last_metrics = HashMap::new();
    last_metrics.insert(4, metric_key(1.5));

    sort_processes(&mut processes, ProcessOrdering::CurrentMetric, &last_metrics, metric_key(0.));

    let sorted_processes_pids: Vec<_> = processes.iter().map(|pm| pm.pid()).collect();
    assert_eq!(&sorted_processes_pids, &[4, 9, 5, 3]);
}

#[test]
fn commands_are_ordered_by_code_point() {
    let mut processes = vec![
        ProcessMetadata::new(1, 0, "é"),
        ProcessMetadata::new(2, 0, "z"),
        ProcessMetadata::new(3, 0, "Z"),
        ProcessMetadata::new(4, 0, ""),
        ProcessMetadata::new(5, 0, "zz"),
    ];
    sort_processes(&mut processes, ProcessOrdering::Command, &no_metrics(), metric_key(0.));

    let commands: Vec<_> = processes.iter().map(|pm| pm.command().to_string()).collect();
    let mut expected = commands.clone();
    expected.sort();
    assert_eq!(commands, expected);
    assert_eq!(commands, vec!["", "Z", "z", "zz", "é"]);
}
