//! The advanced work generator: business-driver volumes through the
//! per-unit and frequency calculators, per date and shift.

use planner::advanced::{
    AdvancedStandardKind, AdvancedWorkGenerator, PerUnitStandard, TaskStandard,
};
use planner::dates::{Date, DateRange};
use planner::frequency::{
    Environment, TaskStandardDetail, TaskStandardFrequency, TaskStandardRange,
};
use planner::ids::{BusinessDriverId, JobId, LocationId, StandardSetId};
use planner::jobs::{Job, JobShift, JobShiftDefinition};
use planner::model::PlannerModel;
use planner::per_unit::Units;
use planner::settings::PlannerSettings;
use std::collections::HashMap;

fn week_shift(standard_set_id: StandardSetId) -> JobShift {
    let definitions: Vec<JobShiftDefinition> =
        (1..=7).map(|dow| JobShiftDefinition::new(dow, 9 * 60, 17 * 60, 0, 0, 1)).collect();
    JobShift::new(JobId::new(), standard_set_id, "All week".to_string(), 1, definitions)
}

fn model_with_volume(
    standard_set_id: StandardSetId,
    jobs: Vec<Job>,
    driver_id: BusinessDriverId,
    volume: u32,
) -> PlannerModel {
    let mut values: HashMap<u128, u32> = HashMap::new();
    values.insert(driver_id.bits, volume);
    PlannerModel::new(
        DateRange::new(Date::new(2025, 1, 1), Date::new(2025, 1, 7)),
        LocationId::new(),
        standard_set_id,
        jobs,
        vec![],
        values,
    )
}

#[test]
fn advanced_generator_returns_labor_data_with_zero_hours_when_no_standards() {
    let generator = AdvancedWorkGenerator::new();
    let standard_set_id = StandardSetId::new();
    let model = PlannerModel::new(
        DateRange::new(Date::new(2025, 1, 1), Date::new(2025, 1, 7)),
        LocationId::new(),
        standard_set_id,
        vec![],
        vec![],
        HashMap::new(),
    );
    let job = Job::test();

    let results = generator.generate_work(&model, &job);

    assert_eq!(results.job_id(), job.id());
    assert!(results.shifts().is_none(), "Advanced generator should not return shifts");
    let labor = results.labor_data().expect("labor data expected");
    assert_eq!(labor.len(), 7);
    assert!(labor.iter().all(|ld| ld.hours() == 0));
}

#[test]
fn advanced_generator_applies_a_per_unit_standard() {
    let standard_set_id = StandardSetId::new();
    let driver_id = BusinessDriverId::new();
    let shift = week_shift(standard_set_id);

    // UnitsPerHour with standard value 5.0 and volume 20: 240.00 minutes,
    // so 4.00 hours per firing day.
    let standard = TaskStandard {
        job_id: JobId::new(),
        standard_set_id,
        shift: shift.clone(),
        business_driver_id: driver_id,
        environment: Environment::new(1),
        kind: AdvancedStandardKind::PerUnit(PerUnitStandard {
            units: Units::UnitsPerHour,
            standard_value: 5_00,
        }),
    };
    let job = Job::new(LocationId::new(), PlannerSettings::default(), vec![shift], vec![])
        .with_task_standards(vec![standard]);
    let model = model_with_volume(standard_set_id, vec![], driver_id, 20);

    let results = AdvancedWorkGenerator::new().generate_work(&model, &job);
    let labor = results.labor_data().expect("labor data");

    assert_eq!(labor.len(), 7);
    for entry in labor.iter() {
        assert_eq!(entry.job_id(), job.id());
        assert_eq!(entry.hours(), 4_00);
    }
}

#[test]
fn advanced_generator_applies_a_frequency_standard() {
    let standard_set_id = StandardSetId::new();
    let driver_id = BusinessDriverId::new();
    let environment = Environment::new(3);
    let shift = week_shift(standard_set_id);

    // Expectancy 0.75 minutes over 8 items; a volume of 9 falls in the
    // 6..=10 range with frequency 7: 6.00 * 7 = 42.00 minutes, so 0.70
    // hours per firing day.
    let detail = TaskStandardDetail::new(75, 8).with_ranges(vec![
        (TaskStandardRange::new(0, 5), vec![TaskStandardFrequency::new(environment, 10)]),
        (TaskStandardRange::new(6, 10), vec![TaskStandardFrequency::new(environment, 7)]),
    ]);
    let standard = TaskStandard {
        job_id: JobId::new(),
        standard_set_id,
        shift: shift.clone(),
        business_driver_id: driver_id,
        environment,
        kind: AdvancedStandardKind::Frequency(detail),
    };
    let job = Job::new(LocationId::new(), PlannerSettings::default(), vec![shift], vec![])
        .with_task_standards(vec![standard]);
    let model = model_with_volume(standard_set_id, vec![], driver_id, 9);

    let results = AdvancedWorkGenerator::new().generate_work(&model, &job);
    let labor = results.labor_data().expect("labor data");

    assert_eq!(labor.len(), 7);
    assert!(labor.iter().all(|ld| ld.hours() == 70));
}

#[test]
fn advanced_generator_contributes_nothing_without_a_driver_volume() {
    let standard_set_id = StandardSetId::new();
    let shift = week_shift(standard_set_id);

    let standard = TaskStandard {
        job_id: JobId::new(),
        standard_set_id,
        shift: shift.clone(),
        business_driver_id: BusinessDriverId::new(),
        environment: Environment::new(1),
        kind: AdvancedStandardKind::PerUnit(PerUnitStandard {
            units: Units::UnitsPerHour,
            standard_value: 5_00,
        }),
    };
    let job = Job::new(LocationId::new(), PlannerSettings::default(), vec![shift], vec![])
        .with_task_standards(vec![standard]);
    // The map has a volume only for an unrelated driver.
    let model = model_with_volume(standard_set_id, vec![], BusinessDriverId::new(), 20);

    let results = AdvancedWorkGenerator::new().generate_work(&model, &job);
    let labor = results.labor_data().expect("labor data");

    assert_eq!(labor.len(), 7);
    assert!(labor.iter().all(|ld| ld.hours() == 0));
}

#[test]
fn advanced_generator_uses_the_shift_window_for_units_per_shift() {
    let standard_set_id = StandardSetId::new();
    let driver_id = BusinessDriverId::new();
    let shift = week_shift(standard_set_id);

    // UnitsPerShift with standard value 10 over the 8-hour window:
    // 100 / 10 * 8 * 60 = 4800.00 minutes, so 80.00 hours per firing day.
    let standard = TaskStandard {
        job_id: JobId::new(),
        standard_set_id,
        shift: shift.clone(),
        business_driver_id: driver_id,
        environment: Environment::new(1),
        kind: AdvancedStandardKind::PerUnit(PerUnitStandard {
            units: Units::UnitsPerShift,
            standard_value: 10_00,
        }),
    };
    let job = Job::new(LocationId::new(), PlannerSettings::default(), vec![shift], vec![])
        .with_task_standards(vec![standard]);
    let model = model_with_volume(standard_set_id, vec![], driver_id, 100);

    let results = AdvancedWorkGenerator::new().generate_work(&model, &job);
    let labor = results.labor_data().expect("labor data");

    assert_eq!(labor.len(), 7);
    assert!(labor.iter().all(|ld| ld.hours() == 80_00));
}
