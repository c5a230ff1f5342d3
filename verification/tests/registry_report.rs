use fanout::registry::print_delay;
use fanout::registry::Registry;

#[test]
fn record_and_report_one_message() {
    let mut registry = Registry::new();
    registry.record_start(7, 100);
    registry.record_end(7, 250);
    let report = print_delay(&registry);
    assert_eq!(report, vec![(7u128, 150u64)]);
}

#[test]
fn start_twice_keeps_first_record() {
    let mut registry = Registry::new();
    registry.record_start(7, 100);
    registry.record_start(7, 999);
    assert_eq!(registry.len(), 1);
    registry.record_end(7, 150);
    let report = print_delay(&registry);
    assert_eq!(report, vec![(7u128, 50u64)]);
}

#[test]
fn end_for_unknown_id_is_noop() {
    let mut registry = Registry::new();
    registry.record_start(7, 100);
    registry.record_end(9, 500);
    let report = print_delay(&registry);
    assert_eq!(report, Vec::new());
}

#[test]
fn end_before_start_clamps_to_zero() {
    let mut registry = Registry::new();
    registry.record_start(7, 100);
    registry.record_end(7, 40);
    let report = print_delay(&registry);
    assert_eq!(report, vec![(7u128, 0u64)]);
}

#[test]
fn unclaimed_messages_are_omitted() {
    let mut registry = Registry::new();
    registry.record_start(1, 10);
    registry.record_start(2, 20);
    registry.record_start(3, 30);
    registry.record_end(2, 95);
    let report = print_delay(&registry);
    assert_eq!(report, vec![(2u128, 75u64)]);
}

#[test]
fn report_is_idempotent() {
    let mut registry = Registry::new();
    registry.record_start(1, 10);
    registry.record_start(2, 20);
    registry.record_end(1, 60);
    registry.record_end(2, 45);
    let first = print_delay(&registry);
    let second = print_delay(&registry);
    assert_eq!(first, second);
    assert_eq!(first, vec![(1u128, 50u64), (2u128, 25u64)]);
}

#[test]
fn snapshot_is_a_point_in_time_copy() {
    let mut registry = Registry::new();
    registry.record_start(1, 10);
    registry.record_end(1, 30);
    let snapshot = registry.snapshot();
    registry.record_start(2, 40);
    registry.record_end(2, 90);
    assert_eq!(print_delay(&snapshot), vec![(1u128, 20u64)]);
    assert_eq!(print_delay(&registry), vec![(1u128, 20u64), (2u128, 50u64)]);
}
