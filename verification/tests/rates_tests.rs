use spv::procfs::rates::{ProcessesRates, PushMode, RateInputs};
use spv::procfs::ProcfsError;

const MS: u64 = 1_000_000;
const RANGE: u64 = 1000 * MS;

/// The rate per second estimated from the selected values, as the disk probe computes it
fn rate_of(inputs: Option<RateInputs>, range: u64) -> f64 {
    match inputs {
        None => 0.,
        Some(RateInputs { first, second, last }) => {
            let origin = last.date - range;
            let slope = (second.value - first.value) as f64 / ((second.date - first.date) as f64 / 1e9);
            let origin_delta = (origin as f64 - first.date as f64) / 1e9;
            let regression = first.value as f64 + slope * origin_delta;
            (last.value as f64 - regression) / (range as f64 / 1e9)
        }
    }
}

fn rate(rates: &ProcessesRates, pid: u32) -> f64 {
    rate_of(rates.rate_inputs(pid).expect("unknown pid"), rates.range())
}

#[test]
fn test_rate_returns_error_if_pid_not_known() {
    let rates = ProcessesRates::new(PushMode::Accumulative, RANGE);

    assert!(matches!(rates.rate_inputs(123), Err(ProcfsError::UnknownPID(123))));
}

#[test]
fn test_rate_should_be_zero_when_acc_values_are_zero() {
    let mut rates = ProcessesRates::new(PushMode::Accumulative, RANGE);
    rates.push(123, 0, 10_000 * MS);
    rates.push(123, 0, 10_500 * MS);

    assert_eq!(rate(&rates, 123), 0.);
}

#[test]
fn test_rate_should_be_projected_increase_over_retention() {
    let mut rates = ProcessesRates::new(PushMode::Accumulative, RANGE);
    rates.push(123, 0, 10_000 * MS);
    rates.push(123, 100, 11_000 * MS);

    assert_eq!(rate(&rates, 123), 100.);
}

#[test]
fn test_rate_should_be_zero_when_only_one_value() {
    let mut rates = ProcessesRates::new(PushMode::Accumulative, RANGE);
    rates.push(123, 0, 10_000 * MS);

    assert!(matches!(rates.rate_inputs(123), Ok(None)));
    assert_eq!(rate(&rates, 123), 0.);
}

#[test]
fn test_should_ignore_outdated_values() {
    let mut rates = ProcessesRates::new(PushMode::Accumulative, RANGE);
    rates.push(123, 0, 10_000 * MS);
    rates.push(123, 100, 10_050 * MS);
    rates.push(123, 100, 12_050 * MS);
    rates.push(123, 100, 12_550 * MS);

    let inputs = rates.rate_inputs(123).unwrap().unwrap();
    assert_eq!(inputs.first.date, 10_050 * MS);
    assert_eq!(rate(&rates, 123), 0.);
}

#[test]
fn test_should_compute_rate_from_outdated_and_recent_value() {
    let mut rates = ProcessesRates::new(PushMode::Accumulative, RANGE);
    rates.push(123, 0, 10_000 * MS);
    rates.push(123, 100, 12_000 * MS);

    assert_eq!(rate(&rates, 123), 50.);
}

#[test]
fn test_should_compute_rate_from_out_dated_and_multiple_recent_values() {
    let mut rates = ProcessesRates::new(PushMode::Accumulative, RANGE);
    rates.push(123, 0, 10_000 * MS);
    rates.push(123, 150, 11_500 * MS);
    rates.push(123, 250, 12_000 * MS);

    assert_eq!(rate(&rates, 123), 150.);
}

#[test]
fn test_should_not_panic_when_range_larger_than_timestamp() {
    let mut rates = ProcessesRates::new(PushMode::Accumulative, RANGE);
    rates.push(1, 10, 0);

    assert!(matches!(rates.rate_inputs(1), Ok(None)));
}

#[test]
fn increments_accumulate() {
    let mut rates = ProcessesRates::new(PushMode::Increment, RANGE);
    rates.push(7, 10, 1_000 * MS);
    rates.push(7, 5, 1_200 * MS);
    rates.push(7, 0, 1_400 * MS);

    let inputs = rates.rate_inputs(7).unwrap().unwrap();
    assert_eq!(inputs.first.value, 10);
    assert_eq!(inputs.second.value, 15);
    assert_eq!(inputs.last.value, 15);
    assert_eq!(inputs.last.date, 1_400 * MS);
}

#[test]
fn the_last_outdated_value_is_kept_first() {
    let mut rates = ProcessesRates::new(PushMode::Accumulative, RANGE);
    rates.push(3, 1, 1_000 * MS);
    rates.push(3, 2, 1_100 * MS);
    rates.push(3, 3, 1_200 * MS);
    rates.push(3, 4, 5_000 * MS);
    rates.push(3, 5, 5_500 * MS);

    let inputs = rates.rate_inputs(3).unwrap().unwrap();
    assert_eq!(inputs.first.value, 3);
    assert_eq!(inputs.second.value, 4);
    assert_eq!(inputs.last.value, 5);
}

#[test]
fn processes_are_tracked_separately() {
    let mut rates = ProcessesRates::new(PushMode::Accumulative, RANGE);
    rates.push(1, 10, 1_000 * MS);
    rates.push(2, 20, 1_100 * MS);

    assert!(matches!(rates.rate_inputs(1), Ok(None)));
    assert!(matches!(rates.rate_inputs(2), Ok(None)));
    assert!(rates.rate_inputs(3).is_err());
}
