use replication_lag::marker::{lag_millis, register_value, SENTINEL};

#[test]
fn sentinel_is_zero() {
    assert_eq!(SENTINEL, 0);
}

#[test]
fn register_value_keeps_markers_from_zero_up() {
    assert_eq!(register_value(0), 0);
    assert_eq!(register_value(1000), 1000);
    assert_eq!(register_value(1_700_000_000_123), 1_700_000_000_123);
    assert_eq!(register_value(i64::MAX), 9_223_372_036_854_775_807);
}

#[test]
fn register_value_wraps_negative_markers() {
    assert_eq!(register_value(-1), u64::MAX);
    assert_eq!(register_value(-1000), 18_446_744_073_709_550_616);
    assert_eq!(register_value(i64::MIN), 9_223_372_036_854_775_808);
}

#[test]
fn register_value_orders_markers_on_one_side_of_zero() {
    assert!(register_value(5) <= register_value(6));
    assert!(register_value(-6) <= register_value(-5));
    assert!(register_value(-1) > register_value(0));
}

#[test]
fn lag_is_the_absolute_difference() {
    assert_eq!(lag_millis(1000, 0), 1000);
    assert_eq!(lag_millis(0, 1000), 1000);
    assert_eq!(lag_millis(1250, 1000), 250);
    assert_eq!(lag_millis(1000, 1250), 250);
}

#[test]
fn lag_is_zero_for_equal_registers() {
    assert_eq!(lag_millis(0, 0), 0);
    assert_eq!(lag_millis(1000, 1000), 0);
    assert_eq!(lag_millis(u64::MAX, u64::MAX), 0);
}

#[test]
fn lag_spans_the_whole_range() {
    assert_eq!(lag_millis(u64::MAX, 0), u64::MAX);
    assert_eq!(lag_millis(0, u64::MAX), u64::MAX);
}
