//! Identifier generation and the small domain holders.

use planner::frequency::Environment;
use planner::ids::{BusinessDriverId, JobId, LocationId, PlannedShiftId, ShiftCategoryId, StandardSetId};
use planner::model::{BusinessDriver, Location, ShiftCategory, StandardSet};
use std::collections::HashSet;

#[test]
fn v4_new_produces_unique_ids_and_is_copy_eq_hash() {
    let mut set: HashSet<JobId> = HashSet::new();
    for _ in 0..32 {
        let id = JobId::new();
        assert!(set.insert(id), "duplicate random id generated unexpectedly");
    }

    let a = JobId::new();
    let b = a; // copy
    assert_eq!(a, b);

    assert!(set.insert(a));
}

#[test]
fn v7_new_produces_orderable_ids() {
    let mut ids: Vec<PlannedShiftId> = (0..32).map(|_| PlannedShiftId::new()).collect();
    let mut sorted = ids.clone();
    sorted.sort();
    ids.sort();
    assert_eq!(sorted, ids);
}

#[test]
fn business_driver_new_and_getters_work() {
    let id = BusinessDriverId::new();
    let location_id = LocationId::new();

    let bd = BusinessDriver::new(id, location_id);

    assert_eq!(bd.id(), id);
    assert_eq!(bd.location_id(), location_id);
}

#[test]
fn location_and_standard_set_hold_their_ids() {
    let lid = LocationId::new();
    assert_eq!(Location::new(lid).id(), lid);
    let sid = StandardSetId::new();
    assert_eq!(StandardSet::new(sid).id(), sid);
}

#[test]
fn shift_category_getters_return_fields() {
    let location_id = LocationId::new();
    let category = ShiftCategory::new(
        location_id,
        "Morning".to_string(),
        "MOR".to_string(),
        true,
        false,
    );
    assert_eq!(category.location_id(), location_id);
    assert_eq!(category.name(), "Morning");
    assert_eq!(category.code(), "MOR");
    assert!(category.training_shift());
    assert!(!category.contract_shift());
    let _: ShiftCategoryId = category.id();
}

#[test]
fn environment_holds_its_id() {
    assert_eq!(Environment::new(7).id(), 7);
}
