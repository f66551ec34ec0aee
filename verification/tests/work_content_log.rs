//! The calculator outcome holder.

use planner::per_unit::WorkContentLogDetail;

#[test]
fn new_sets_fields_and_getters_work() {
    let detail = WorkContentLogDetail::new(12_50, "a*b + c".to_string());
    assert_eq!(detail.work_in_minutes(), 12_50);
    assert_eq!(detail.formula(), "a*b + c");
}

#[test]
fn default_is_zero_and_empty_formula() {
    let detail = WorkContentLogDetail::default();
    assert_eq!(detail.work_in_minutes(), 0);
    assert_eq!(detail.formula(), "");
}

#[test]
fn clone_and_debug_behavior() {
    let detail = WorkContentLogDetail::new(7_75, "x / y".to_string());
    let cloned = detail.clone();
    assert_eq!(cloned.work_in_minutes(), 7_75);
    assert_eq!(cloned.formula(), "x / y");

    // Debug prints something useful (non-empty and contains the type name)
    let dbg = format!("{:?}", detail);
    assert!(dbg.contains("WorkContentLogDetail"));
    assert!(!dbg.is_empty());
}
