use spv::probe::{metrics_or_default, ProbeAction, ProbeInput, ProbeRunner};

/// Handles the messages in order, then returns the pids monitored when the last probe was asked
fn probed_pids_after(call_sequence: Vec<ProbeInput>) -> Vec<u32> {
    let mut runner = ProbeRunner::new();
    let mut probed: Vec<u32> = vec![];
    for msg in call_sequence.into_iter().chain(std::iter::once(ProbeInput::Kill())) {
        match runner.handle_message(msg) {
            ProbeAction::Probe => {
                probed = runner.monitored_pids().iter().copied().collect();
                probed.sort();
            }
            ProbeAction::Stop => break,
            ProbeAction::Continue => (),
        }
    }
    probed
}

#[test]
fn test_should_return_no_metrics_when_no_pid() {
    assert_eq!(probed_pids_after(vec![ProbeInput::Probe()]), Vec::<u32>::new());
}

#[test]
fn test_should_return_2_metrics_when_2_pids_added() {
    let call_seq = vec![ProbeInput::AddProcess(123), ProbeInput::AddProcess(124), ProbeInput::Probe()];

    assert_eq!(probed_pids_after(call_seq), vec![123, 124]);
}

#[test]
fn test_should_return_no_metrics_when_pid_added_and_removed() {
    let call_seq = vec![ProbeInput::AddProcess(123), ProbeInput::DelProcess(123), ProbeInput::Probe()];

    assert_eq!(probed_pids_after(call_seq), Vec::<u32>::new());
}

#[test]
fn test_should_not_fail_when_deleting_inexistant_pid() {
    let call_seq = vec![ProbeInput::DelProcess(123), ProbeInput::Probe()];

    assert_eq!(probed_pids_after(call_seq), Vec::<u32>::new());
}

#[test]
fn test_should_not_probe_process_twice_when_pid_added_twice() {
    let call_seq = vec![ProbeInput::AddProcess(123), ProbeInput::AddProcess(123), ProbeInput::Probe()];

    assert_eq!(probed_pids_after(call_seq), vec![123]);
}

#[test]
fn kill_stops_the_runner() {
    let mut runner = ProbeRunner::new();

    assert_eq!(runner.handle_message(ProbeInput::AddProcess(5)), ProbeAction::Continue);
    assert!(runner.is_monitored(5));
    assert_eq!(runner.handle_message(ProbeInput::Kill()), ProbeAction::Stop);
    assert!(runner.is_monitored(5));
}

#[test]
fn unprobed_processes_get_the_default_metric() {
    let pids = vec![3, 1, 2];
    let probed = vec![Some(30u64), None, Some(20)];

    assert_eq!(metrics_or_default(&pids, &probed, 0), vec![(3, 30), (1, 0), (2, 20)]);
}

#[test]
fn no_process_gives_no_metric() {
    assert_eq!(metrics_or_default::<u64>(&vec![], &vec![], 7), vec![]);
}
