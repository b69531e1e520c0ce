use spv::metrics::IOMetric;
use spv::values::{Bitrate, BitrateValue, Value};

#[test]
fn values_test_bitrate_metric_value() {
    let bitrate = Bitrate::new(294830958);
    assert_eq!(bitrate.value(), 294830958);

    let bitrate_value = BitrateValue::new(294830958);
    assert_eq!(bitrate_value.value(), 294830958);
}

#[test]
fn values_test_bitrate_value_cmp() {
    let lesser_val = Bitrate::new(123456789);
    let greater_val = Bitrate::new(987654321);
    assert!(lesser_val < greater_val);
    assert!(greater_val > lesser_val);
    assert!(lesser_val.is_less_than(&greater_val));
    assert!(!greater_val.is_less_than(&lesser_val));

    let lesser_val = BitrateValue::new(123456789);
    let greater_val = BitrateValue::new(987654321);
    assert!(lesser_val < greater_val);
    assert!(greater_val > lesser_val);
    assert!(lesser_val.is_less_than(&greater_val));
}

#[test]
fn values_test_bitrate_value_fmt() {
    assert_eq!(Bitrate::new(123).to_string(), "123");
    assert_eq!(BitrateValue::new(123).to_string(), "123 b/s");
}

#[test]
fn bitrate_units() {
    assert_eq!(Bitrate::new(0).unit(), "bps");
    assert_eq!(BitrateValue::new(0).unit(), "b/s");
    assert_eq!(Bitrate::new(0).to_string(), "0");
    assert_eq!(Bitrate::new(u32::MAX).to_string(), "4294967295");
}

#[test]
fn test_max_value_should_return_input_as_float_when_input_greater() {
    let metric = IOMetric::new(10, 5);

    assert_eq!(metric.max_value() as f64, 10.);
}

#[test]
fn test_max_value_should_return_output_as_float_when_output_greater() {
    let metric = IOMetric::new(10, 20);

    assert_eq!(metric.max_value() as f64, 20.);
}

#[test]
fn test_first_component_should_be_input() {
    let metric = IOMetric::new(1, 0);

    assert_eq!(metric.component(0).unwrap() as f64, 1.);
}

#[test]
fn test_second_component_should_be_output() {
    let metric = IOMetric::new(1, 0);

    assert_eq!(metric.component(1).unwrap() as f64, 0.);
}

#[test]
fn io_metric_has_two_components() {
    let metric = IOMetric::new(1, 0);

    assert_eq!(metric.cardinality(), 2);
    assert!(metric.component(2).is_err());
    assert_eq!(metric.unit(), "B/s");
    assert_eq!(IOMetric::default(), IOMetric::new(0, 0));
}

#[test]
fn test_should_order_io_metrics_based_on_max_value() {
    let lesser_metric = IOMetric::new(10, 20);
    let greater_metric = IOMetric::new(15, 25);

    assert!(lesser_metric.is_less_than(&greater_metric));
    assert!(!greater_metric.is_less_than(&lesser_metric));
}
