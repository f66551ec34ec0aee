//! Job lookups and the decimal renderers.

use planner::dates::Date;
use planner::ids::{JobId, StandardSetId};
use planner::jobs::{Job, JobShift, JobShiftDefinition};
use planner::settings::PlannerSettings;
use planner::text::{fixed2_string, int_string, trim2_string};

#[test]
fn shift_detail_is_found_by_day_of_week() {
    let monday_def = JobShiftDefinition::new(1, 9 * 60, 17 * 60, 0, 0, 1);
    let sunday_def = JobShiftDefinition::new(7, 10 * 60, 14 * 60, 0, 0, 1);
    let shift = JobShift::new(
        JobId::new(),
        StandardSetId::new(),
        "Front desk".to_string(),
        1,
        vec![monday_def, sunday_def],
    );

    // 2025-01-06 is a Monday, 2025-01-05 a Sunday, 2025-01-07 a Tuesday.
    assert_eq!(shift.shift_detail_for_date(Date::new(2025, 1, 6)), Some(&monday_def));
    assert_eq!(shift.shift_detail_for_date(Date::new(2025, 1, 5)), Some(&sunday_def));
    assert_eq!(shift.shift_detail_for_date(Date::new(2025, 1, 7)), None);
}

#[test]
fn shifts_are_filtered_by_standard_set() {
    let set_a = StandardSetId::new();
    let set_b = StandardSetId::new();
    let shift_a = JobShift::new(JobId::new(), set_a, "A".to_string(), 1, vec![]);
    let shift_b = JobShift::new(JobId::new(), set_b, "B".to_string(), 2, vec![]);
    let shift_a2 = JobShift::new(JobId::new(), set_a, "A2".to_string(), 3, vec![]);
    let a_id = *shift_a.id();
    let a2_id = *shift_a2.id();

    let job = Job::new(
        planner::ids::LocationId::new(),
        PlannerSettings::default(),
        vec![shift_a, shift_b, shift_a2],
        vec![],
    );

    let for_a = job.shifts_for_standard_set(set_a);
    assert_eq!(for_a.len(), 2);
    assert_eq!(*for_a[0].id(), a_id);
    assert_eq!(*for_a[1].id(), a2_id);
    assert_eq!(job.shifts_for_standard_set(StandardSetId::new()).len(), 0);
    assert_eq!(job.shifts().len(), 3);
    assert_eq!(job.salaried_standards().len(), 0);
}

#[test]
fn integers_render_in_decimal() {
    assert_eq!(int_string(0), "0");
    assert_eq!(int_string(7), "7");
    assert_eq!(int_string(60), "60");
    assert_eq!(int_string(1234567), "1234567");
    assert_eq!(int_string(-42), "-42");
}

#[test]
fn hundredths_render_trimmed() {
    assert_eq!(trim2_string(500), "5");
    assert_eq!(trim2_string(150), "1.5");
    assert_eq!(trim2_string(225), "2.25");
    assert_eq!(trim2_string(0), "0");
    assert_eq!(trim2_string(5), "0.05");
    assert_eq!(trim2_string(-50), "-0.5");
    assert_eq!(trim2_string(-1234), "-12.34");
}

#[test]
fn hundredths_render_fixed_with_two_decimals() {
    assert_eq!(fixed2_string(370), "3.70");
    assert_eq!(fixed2_string(600), "6.00");
    assert_eq!(fixed2_string(7), "0.07");
    assert_eq!(fixed2_string(-125), "-1.25");
}
