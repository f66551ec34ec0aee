//! The output envelope, the holder types, and the non-salaried strategies.

use planner::dates::{Date, DateRange};
use planner::generators::{
    BasicPlannedShiftCreator, BasicStandardsProcessorImpl, NoneWorkGenerator, WorkResults,
};
use planner::salaried::SalariedStandardsProcessorImpl;
use planner::ids::{JobId, LocationId, StandardSetId};
use planner::jobs::Job;
use planner::model::PlannerModel;
use planner::results::{DateTime, LaborData, PlannedShift, PlannedShiftSource, PlannedShiftType};
use std::collections::HashMap;

fn make_planner_model() -> PlannerModel {
    let start = Date::new(2025, 1, 1);
    let end = Date::new(2025, 1, 7);
    let dates = DateRange::new(start, end);
    let location_id = LocationId::new();
    let standard_set_id = StandardSetId::new();
    PlannerModel::new(dates, location_id, standard_set_id, vec![], vec![], HashMap::new())
}

#[test]
fn should_be_able_to_create_work_results_with_shifts() {
    let job_id = JobId::new();
    let work_results = WorkResults::with_shifts(job_id, vec![]);

    assert_eq!(work_results.job_id(), job_id);
    assert_eq!(work_results.shifts().unwrap().len(), 0);
    assert!(work_results.labor_data().is_none());
}

#[test]
fn should_be_able_to_create_work_results_with_labor_data() {
    let job_id = JobId::new();
    let labor_data = LaborData::new(JobId::new(), Date::new(2025, 10, 6), 123_45);
    let work_results = WorkResults::with_labor_data(job_id, vec![labor_data.clone()]);

    assert_eq!(work_results.job_id(), job_id);
    assert_eq!(work_results.labor_data().unwrap().len(), 1);
    assert_eq!(work_results.labor_data().unwrap()[0], labor_data);
    assert!(work_results.shifts().is_none());
}

#[test]
fn basic_standards_processor_impl_can_be_constructed() {
    let processor = BasicStandardsProcessorImpl::new();
    let model = make_planner_model();
    let job = Job::test();
    let results = processor.process(&model, &job);
    assert_eq!(results.job_id(), job.id());
}

#[test]
fn salaried_standards_processor_impl_can_be_constructed() {
    let processor = SalariedStandardsProcessorImpl::new();
    let model = make_planner_model();
    let job = Job::test();
    let results = processor.process(&model, &job);
    assert_eq!(results.job_id(), job.id());
    assert!(results.labor_data().is_some());
}

#[test]
fn none_generator_returns_empty_shifts_and_correct_job_id() {
    let generator = NoneWorkGenerator::new();
    let planner_model = make_planner_model();
    let job = Job::test();

    let results = generator.generate_work(&planner_model, &job);

    assert_eq!(results.job_id(), job.id());
    let shifts = results.shifts().expect("shifts should be Some for NoneWorkGenerator");
    assert_eq!(shifts.len(), 0);
    assert!(results.labor_data().is_none());
}

#[test]
fn none_generator_ignores_planner_model_content() {
    // Even if the planner model has different dates or hypothetical data,
    // the output remains empty
    let generator = NoneWorkGenerator::new();
    let planner_model = make_planner_model();
    let job = Job::test();

    let results = generator.generate_work(&planner_model, &job);

    assert!(results.shifts().is_some());
    assert_eq!(results.shifts().unwrap().len(), 0);
}

#[test]
fn planned_shift_creator_tags_each_marker() {
    let creator = BasicPlannedShiftCreator::new();
    let markers = vec!["alpha".to_string(), "beta".to_string()];
    let planned = creator.create_planned_shifts_from_work_contents(&markers);
    assert_eq!(planned, vec!["PLANNED:alpha".to_string(), "PLANNED:beta".to_string()]);
    assert_eq!(BasicPlannedShiftCreator::create_planned_shift(""), "PLANNED:");
}

#[test]
fn planned_shift_setters_and_getters_work() {
    let location_id = LocationId::new();
    let job_id = JobId::new();
    let shift_date = Date::new(2025, 10, 6);
    let start = DateTime::new(shift_date, 9 * 60);
    let end = DateTime::new(shift_date, 17 * 60);
    let planned_shift = PlannedShift::new(
        location_id,
        job_id,
        PlannedShiftType::Projected,
        shift_date,
        start,
        end,
    );

    assert_eq!(planned_shift.location_id(), location_id);
    assert_eq!(planned_shift.job_id(), job_id);
    assert_eq!(planned_shift.shift_type(), PlannedShiftType::Projected);
    assert_eq!(planned_shift.shift_date(), shift_date);
    assert_eq!(planned_shift.date_shift_generated_from(), shift_date);
    assert_eq!(planned_shift.start_date_time(), start);
    assert_eq!(planned_shift.end_date_time(), end);
    assert_eq!(planned_shift.duration(), 8 * 60);
    assert_eq!(planned_shift.source(), PlannedShiftSource::Auto);
    assert_eq!(planned_shift.shift_category_id(), None);
    assert_eq!(planned_shift.assignment_id(), None);
}

#[test]
fn new_sets_fields_and_accessors_return_values() {
    let job_id = JobId::new();
    let date = Date::new(2025, 1, 15);
    let hours = 8_75;

    let ld = LaborData::new(job_id, date, hours);

    assert_eq!(ld.job_id(), job_id);
    assert_eq!(ld.date(), date);
    assert_eq!(ld.hours(), hours);
}

#[test]
fn clone_and_copy_behave_as_expected() {
    let job_id = JobId::new();
    let date = Date::new(2023, 6, 1);

    let original = LaborData::new(job_id, date, 10_00);

    // Copy (because Copy is derived)
    let copied: LaborData = original;
    assert_eq!(copied, original);

    // Clone (because Clone is derived)
    let cloned = original.clone();
    assert_eq!(cloned, original);
}

#[test]
fn equality_same_values() {
    let job_id = JobId::new();
    let date = Date::new(2022, 2, 2);
    let hours = 5_00;

    let a = LaborData::new(job_id, date, hours);
    let b = LaborData::new(job_id, date, hours);

    assert_eq!(a, b);
}

#[test]
fn inequality_different_job_id() {
    let date = Date::new(2022, 2, 2);
    let hours = 5_00;

    let a = LaborData::new(JobId::new(), date, hours);
    let b = LaborData::new(JobId::new(), date, hours);

    assert_ne!(a, b);
}

#[test]
fn inequality_different_date() {
    let job_id = JobId::new();

    let a = LaborData::new(job_id, Date::new(2022, 1, 1), 5_00);
    let b = LaborData::new(job_id, Date::new(2022, 1, 2), 5_00);

    assert_ne!(a, b);
}

#[test]
fn inequality_different_hours() {
    let job_id = JobId::new();
    let date = Date::new(2022, 1, 1);

    let a = LaborData::new(job_id, date, 5_00);
    let b = LaborData::new(job_id, date, 6_00);

    assert_ne!(a, b);
}
