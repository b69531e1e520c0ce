use spv::collection::{DatedMetric, MetricCollection, ProcessData};
use spv::procfs::cpu::UsageCalculator;
use spv::procfs::parsers::process::PidStat;
use spv::procfs::parsers::system::Stat;
use spv::time::{Span, Timestamp};

fn now() -> Timestamp {
    Timestamp::from_millis(365 * 24 * 3600 * 1000)
}

/// Pushes the metrics to a new `ProcessData`, one second apart, the last one at `now()`
fn build_process_data_and_push(metrics: &[f64]) -> ProcessData<f64> {
    let mut process_data = ProcessData::new();
    let count = metrics.len() as u64;
    for (i, v) in metrics.iter().enumerate() {
        process_data.push(*v, now().sub((count - 1 - i as u64) * 1000));
    }
    process_data
}

fn values(metrics: &[DatedMetric<f64>]) -> Vec<f64> {
    metrics.iter().map(|dm| dm.metric).collect()
}

#[test]
fn test_should_return_default_when_no_metric() {
    let collection = MetricCollection::<f64>::new();

    assert_eq!(collection.last_or_default(1), &f64::default());
}

#[test]
fn test_should_return_last_metric_when_has_metric() {
    let mut collection = MetricCollection::<f64>::new();
    collection.push(1, 1., now());
    collection.push(1, 2., now().add(1000));

    assert_eq!(collection.last_or_default(1), &2.);
    assert_eq!(collection.last_or_default(2), &0.);
}

#[test]
fn test_view_should_be_empty_by_default() {
    let process_data = ProcessData::<f64>::new();
    let span = Span::new(now(), now().add(60_000));

    assert_eq!(process_data.extract_metrics_according_to_span(&span).len(), 0);
    assert_eq!(process_data.last(), None);
}

#[test]
fn test_view_should_include_metrics_in_span() {
    let process_data = build_process_data_and_push(&[0., 1., 2., 3.]);
    let span = Span::new(now().sub(3000), now());

    assert_eq!(values(&process_data.extract_metrics_according_to_span(&span)), vec![0., 1., 2., 3.]);
}

#[test]
fn test_should_correctly_date_metrics() {
    let process_data = build_process_data_and_push(&[0., 1., 2., 3.]);
    let span = Span::new(now().sub(3000), now());

    let dates: Vec<Timestamp> = process_data
        .extract_metrics_according_to_span(&span)
        .iter()
        .map(|dm| dm.timestamp)
        .collect();
    assert_eq!(dates, vec![now().sub(3000), now().sub(2000), now().sub(1000), now()]);
}

#[test]
fn test_too_old_metrics_should_not_be_in_view_when_process_has_few_metrics() {
    let process_data = build_process_data_and_push(&[0., 1., 2., 3.]);
    let span = Span::new(now().sub(1000), now());

    assert_eq!(values(&process_data.extract_metrics_according_to_span(&span)), vec![2., 3.]);
}

#[test]
fn test_extract_should_only_return_1_metric_if_span_covers_1_iteration() {
    let process_data = build_process_data_and_push(&[0., 1., 2., 3.]);
    let second_value_timestamp = now().sub(2000);
    let span = Span::new(second_value_timestamp, second_value_timestamp);

    assert_eq!(values(&process_data.extract_metrics_according_to_span(&span)), vec![1.]);
    assert_eq!(process_data.last(), Some(&3.));
}

#[test]
fn test_process_metrics_should_be_empty_when_not_collected() {
    let collection = MetricCollection::<f64>::new();
    let span = Span::new(now(), now().add(60_000));

    assert_eq!(collection.metrics_in_span(1, &span).len(), 0);
}

#[test]
fn test_collector_should_not_be_empty_when_collected() {
    let mut collection = MetricCollection::<f64>::new();
    collection.push(1, 10., now());
    let span = Span::new(now(), now().add(60_000));

    assert_eq!(collection.metrics_in_span(1, &span).len(), 1);
    assert_eq!(collection.default_metric(), &0.);
}

#[test]
fn cpu_runtime_differences() {
    let mut calculator = UsageCalculator::new(Stat::new(100, 0, 0, 0, 0, 0));
    calculator.compute_new_runtime_diff(Stat::new(150, 10, 0, 40, 0, 0));
    assert_eq!(calculator.global_runtime_diff(), 100);

    assert_eq!(calculator.calculate_pid_runtime_diff(1, PidStat::new(10, 5, 0, 0, 0)), 15);
    assert_eq!(calculator.calculate_pid_runtime_diff(1, PidStat::new(20, 5, 0, 0, 0)), 10);

    let default_calculator = UsageCalculator::default();
    assert_eq!(default_calculator.global_runtime_diff(), 0);
}
