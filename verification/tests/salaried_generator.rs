//! The salaried work generator over whole planner models.

use planner::dates::{Date, DateRange};
use planner::ids::{JobId, LocationId, StandardSetId};
use planner::jobs::{Job, JobShift, JobShiftDefinition, SalariedStandard};
use planner::model::PlannerModel;
use planner::salaried::SalariedWorkGenerator;
use planner::settings::{PlannerSettings, SalaryMode};
use std::collections::HashMap;

fn make_planner_model() -> PlannerModel {
    let start = Date::new(2025, 1, 1);
    let end = Date::new(2025, 1, 7);
    let dates = DateRange::new(start, end);
    let location_id = LocationId::new();
    let standard_set_id = StandardSetId::new();
    PlannerModel::new(dates, location_id, standard_set_id, vec![], vec![], HashMap::new())
}

#[test]
fn salaried_generator_returns_labor_data_for_each_date_with_zero_hours_when_no_shifts() {
    let generator = SalariedWorkGenerator::new();
    let planner_model = make_planner_model();
    let job = Job::test();

    let results = generator.generate_work(&planner_model, &job);

    assert_eq!(results.job_id(), job.id());
    assert!(results.shifts().is_none(), "Salaried generator should not return shifts");
    let labor = results.labor_data().expect("labor_data should be Some for SalariedWorkGenerator");

    let expected_days = 7;
    assert_eq!(labor.len(), expected_days);

    // All hours should be zero because there are no shifts
    assert!(labor.iter().all(|ld| ld.hours() == 0));
}

#[test]
fn salaried_generator_sums_zero_hours_when_shifts_have_no_details() {
    let generator = SalariedWorkGenerator::new();
    let planner_model = make_planner_model();
    let std_set = planner_model.standard_set_id();

    // A couple of shifts under the same standard set but with no
    // definitions: no details on any date
    let shift1 = JobShift::new(JobId::new(), std_set, "Shift 1".to_string(), 1, vec![]);
    let shift2 = JobShift::new(JobId::new(), std_set, "Shift 2".to_string(), 2, vec![]);

    let job = Job::new(
        LocationId::new(),
        PlannerSettings::default(),
        vec![shift1, shift2],
        vec![], // no salaried standards associated
    );

    let results = generator.generate_work(&planner_model, &job);
    let labor = results.labor_data().expect("labor_data should be present");

    // One entry per planner date, all zeros because no shift details exist
    let expected_days = 7;
    assert_eq!(labor.len(), expected_days);
    assert!(labor.iter().all(|ld| ld.hours() == 0));
}

#[test]
fn salaried_generator_sums_standards_across_firing_shifts() {
    let planner_model = make_planner_model();
    let std_set = planner_model.standard_set_id();

    // One shift that fires every day of the week.
    let definitions: Vec<JobShiftDefinition> =
        (1..=7).map(|dow| JobShiftDefinition::new(dow, 9 * 60, 17 * 60, 0, 0, 1)).collect();
    let shift = JobShift::new(JobId::new(), std_set, "All week".to_string(), 1, definitions);

    // A monthly-allocated standard: 1488 hours/year in 31-day January is
    // 4.0 hours per day.
    let standard = SalariedStandard {
        job_id: JobId::new(),
        standard_set_id: std_set,
        shift: shift.clone(),
        salary_mode: SalaryMode::MONTHLY,
        hours_per_week: 0,
        vacation_hours_per_year: 0,
        hours_per_year: 1488_00,
    };

    let job = Job::new(LocationId::new(), PlannerSettings::default(), vec![shift], vec![standard]);

    let results = SalariedWorkGenerator::new().generate_work(&planner_model, &job);
    let labor = results.labor_data().expect("labor data");

    assert_eq!(labor.len(), 7);
    for entry in labor.iter() {
        assert_eq!(entry.job_id(), job.id());
        assert_eq!(entry.hours(), 4_00);
    }
}

#[test]
fn salaried_generator_skips_shifts_of_other_standard_sets() {
    let planner_model = make_planner_model();
    let other_set = StandardSetId::new();

    let definitions: Vec<JobShiftDefinition> =
        (1..=7).map(|dow| JobShiftDefinition::new(dow, 9 * 60, 17 * 60, 0, 0, 1)).collect();
    let shift = JobShift::new(JobId::new(), other_set, "Other set".to_string(), 1, definitions);

    let standard = SalariedStandard {
        job_id: JobId::new(),
        standard_set_id: other_set,
        shift: shift.clone(),
        salary_mode: SalaryMode::MONTHLY,
        hours_per_week: 0,
        vacation_hours_per_year: 0,
        hours_per_year: 1488_00,
    };

    let job = Job::new(LocationId::new(), PlannerSettings::default(), vec![shift], vec![standard]);

    let results = SalariedWorkGenerator::new().generate_work(&planner_model, &job);
    let labor = results.labor_data().expect("labor data");

    // The shift belongs to a different standard set, so no hours accrue.
    assert_eq!(labor.len(), 7);
    assert!(labor.iter().all(|ld| ld.hours() == 0));
}

#[test]
fn first_declared_standard_wins_for_a_shift() {
    let planner_model = make_planner_model();
    let std_set = planner_model.standard_set_id();

    let definitions: Vec<JobShiftDefinition> =
        (1..=7).map(|dow| JobShiftDefinition::new(dow, 9 * 60, 17 * 60, 0, 0, 1)).collect();
    let shift = JobShift::new(JobId::new(), std_set, "All week".to_string(), 1, definitions);

    let monthly = |hours_per_year: i64| SalariedStandard {
        job_id: JobId::new(),
        standard_set_id: std_set,
        shift: shift.clone(),
        salary_mode: SalaryMode::MONTHLY,
        hours_per_week: 0,
        vacation_hours_per_year: 0,
        hours_per_year,
    };

    // Two standards for the same (set, shift): the first declared one is
    // used. 1488 hours/year in January is 4.0 per day.
    let standards = vec![monthly(1488_00), monthly(2976_00)];
    let job = Job::new(LocationId::new(), PlannerSettings::default(), vec![shift], standards);

    let results = SalariedWorkGenerator::new().generate_work(&planner_model, &job);
    let labor = results.labor_data().expect("labor data");
    assert!(labor.iter().all(|ld| ld.hours() == 4_00));
}
