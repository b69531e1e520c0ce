use spv::iteration::Span;
use spv::process::{Pid, ProcessCollector, ProcessMetadata, Status};

#[test]
fn test_pid_should_be_pm_pid() {
    assert_eq!(ProcessMetadata::new(123, 0, "command").pid(), 123);
}

#[test]
fn test_command_should_be_pm_command() {
    assert_eq!(ProcessMetadata::new(123, 0, "command").command(), "command");
}

#[test]
fn test_status_should_be_running_by_default() {
    assert_eq!(ProcessMetadata::new(123, 0, "command").status(), Status::RUNNING);
}

#[test]
fn test_status_should_be_dead_once_marked_as_dead() {
    let mut pm = ProcessMetadata::new(123, 0, "command");
    pm.mark_dead();

    assert_eq!(pm.status(), Status::DEAD);
}

#[test]
fn test_span_should_only_include_spawn_iteration_by_default() {
    let pm = ProcessMetadata::new(456, 42, "command");
    let running_span = pm.running_span();

    assert_eq!(running_span.begin(), 42);
    assert_eq!(running_span.end(), 42);
    assert_eq!(running_span.size(), 1);
}

#[test]
fn test_span_should_increase_when_process_marked_alive() {
    let mut pm = ProcessMetadata::new(456, 50, "command");
    pm.mark_alive_at_iteration(59);
    let running_span = pm.running_span();

    assert_eq!(running_span.begin(), 50);
    assert_eq!(running_span.end(), 59);
    assert_eq!(running_span.size(), 10);
}

#[test]
fn status_labels() {
    assert_eq!(Status::RUNNING.label(), "running");
    assert_eq!(Status::DEAD.label(), "dead");
}

/// Plays the part of the scanner: `running_pids` were found running at `iteration`, and the
/// metadata of the processes in `failing_pids` could not be fetched
fn collect(collector: &mut ProcessCollector, running_pids: &[Pid], failing_pids: &[Pid], iteration: usize) {
    let new_processes: Vec<ProcessMetadata> = collector
        .unregistered_pids(running_pids)
        .into_iter()
        .filter(|pid| !failing_pids.contains(pid))
        .map(|pid| ProcessMetadata::new(pid, iteration, "command"))
        .collect();
    collector.collect_processes(running_pids, new_processes, iteration);
}

fn collect_sequence(pids_sequence: Vec<Vec<Pid>>) -> ProcessCollector {
    let mut collector = ProcessCollector::new();
    for (iteration, pids) in pids_sequence.iter().enumerate() {
        collect(&mut collector, pids, &[], iteration);
    }
    collector
}

#[test]
fn test_should_collect_no_process_when_no_pid_scanned() {
    let mut collector = ProcessCollector::new();
    collect(&mut collector, &[], &[], 1);

    assert_eq!(collector.running_processes(), vec![]);
}

#[test]
fn test_should_collect_processes_when_pids_are_scanned() {
    let scanned_pids = vec![1, 2, 3];
    let mut collector = ProcessCollector::new();
    collect(&mut collector, &scanned_pids, &[], 1);

    let processes = collector.running_processes();
    assert_eq!(processes.len(), 3);

    let mut processes_pids = processes.iter().map(|pm| pm.pid()).collect::<Vec<Pid>>();
    processes_pids.sort();
    assert_eq!(processes_pids, scanned_pids);
}

#[test]
fn test_should_ignore_processes_for_which_scanning_fails() {
    let mut collector = ProcessCollector::new();
    collect(&mut collector, &[1, 2, 3], &[2], 1);

    let processes_pids = collector.running_processes().iter().map(|pm| pm.pid()).collect::<Vec<Pid>>();
    assert_eq!(processes_pids.len(), 2);
    assert!(!processes_pids.contains(&2))
}

#[test]
fn test_should_set_status_of_running_processes_to_running() {
    let mut collector = ProcessCollector::new();
    collect(&mut collector, &[1], &[], 1);

    assert_eq!(collector.running_processes()[0].status(), Status::RUNNING);
}

#[test]
fn test_should_correctly_marked_dead_process() {
    let collector = collect_sequence(vec![vec![3], vec![]]);

    assert_eq!(collector.processes()[0].status(), Status::DEAD);
}

#[test]
fn test_should_not_classify_dead_processes_as_running() {
    let collector = collect_sequence(vec![vec![3], vec![]]);

    assert_eq!(collector.running_processes().len(), 0);
    assert_eq!(collector.processes().len(), 1);
}

#[test]
fn test_running_processes_should_only_return_running_processes() {
    let collector = collect_sequence(vec![vec![1, 2, 3], vec![1]]);

    let running_processes = collector.running_processes();
    assert_eq!(running_processes.len(), 1);
    assert_eq!(running_processes[0].pid(), 1);
}

#[test]
fn test_running_pids_should_only_return_running_processes() {
    let collector = collect_sequence(vec![vec![1, 2, 3], vec![1]]);

    assert_eq!(collector.running_pids(), vec![1]);
}

#[test]
fn test_span_of_running_processes_should_be_updated_when_collected() {
    let mut collector = ProcessCollector::new();
    collect(&mut collector, &[1], &[], 0);
    assert_eq!(collector.running_processes()[0].running_span(), &Span::from_end_and_size(0, 1));

    collect(&mut collector, &[1], &[], 1);
    assert_eq!(collector.running_processes()[0].running_span(), &Span::from_end_and_size(1, 2));
}

#[test]
fn a_dead_process_stays_dead_when_its_pid_runs_again() {
    let collector = collect_sequence(vec![vec![7], vec![], vec![7]]);

    assert_eq!(collector.processes().len(), 1);
    assert_eq!(collector.processes()[0].status(), Status::DEAD);
    assert!(collector.is_registered(7));
    assert_eq!(collector.unregistered_pids(&[7, 8]), vec![8]);
}

#[test]
fn process_test_pid_from_valid_proc_dir_name() {
    let valid_pid = spv::procfs::scanner::extract_pid_from_proc_dir(Some("123")).unwrap();

    assert_eq!(valid_pid, 123);
}

#[test]
fn process_test_pid_from_invalid_proc_dir_name() {
    match spv::procfs::scanner::extract_pid_from_proc_dir(Some("abc")) {
        Err(spv::procfs::scanner::ScanError::NotProcessDir(dir)) => assert_eq!(dir, String::from("abc")),
        _ => assert!(false),
    }
}

#[test]
fn process_test_pid_from_no_proc_dir_name() {
    match spv::procfs::scanner::extract_pid_from_proc_dir(None) {
        Err(spv::procfs::scanner::ScanError::NotProcessDir(dir)) => assert_eq!(dir, String::new()),
        _ => assert!(false),
    }
}

#[test]
fn pid_too_large_for_a_pid_is_not_a_process_dir() {
    assert!(spv::procfs::scanner::extract_pid_from_proc_dir(Some("4294967296")).is_err());
    assert_eq!(spv::procfs::scanner::extract_pid_from_proc_dir(Some("4294967295")), Ok(u32::MAX));
}

#[test]
fn processes_within_a_span_are_those_that_ran_during_it() {
    // Process 1 runs at iterations 0..=1, process 2 at 1..=3, process 3 at 3..=4
    let collector = collect_sequence(vec![vec![1], vec![1, 2], vec![2], vec![2, 3], vec![3]]);

    let pids = |span: Span| -> Vec<Pid> { collector.processes_within(&span).iter().map(|pm| pm.pid()).collect() };
    assert_eq!(pids(Span::new(0, 0)), vec![1]);
    assert_eq!(pids(Span::new(2, 2)), vec![2]);
    assert_eq!(pids(Span::new(1, 3)), vec![1, 2, 3]);
    assert_eq!(pids(Span::new(4, 10)), vec![3]);
    assert_eq!(pids(Span::new(5, 10)), Vec::<Pid>::new());
}
