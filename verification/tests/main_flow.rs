//! End-to-end: the dispatcher over whole planner models.

use planner::dates::{Date, DateRange, date_le};
use planner::generators::generate_work_content;
use planner::ids::{LocationId, StandardSetId};
use planner::jobs::Job;
use planner::model::{Location, PlannerModel, StandardSet};
use planner::settings::{PlannerSettings, StandardType};
use std::collections::HashMap;

#[test]
fn should_generate_empty_work_content_if_no_jobs() {
    let dates = DateRange::new(Date::new(2025, 10, 1), Date::new(2025, 10, 31));
    let location = Location::new(LocationId::new());
    let standard_set = StandardSet::new(StandardSetId::new());
    let planner_model = PlannerModel::new(
        dates,
        location.id(),
        standard_set.id(),
        vec![],
        vec![],
        HashMap::new(),
    );
    let results = generate_work_content(planner_model);
    assert!(results.is_empty());
}

#[test]
fn should_generate_empty_work_content_if_one_job() {
    let dates = DateRange::new(Date::new(2025, 10, 1), Date::new(2025, 10, 31));
    let location = Location::new(LocationId::new());
    let standard_set = StandardSet::new(StandardSetId::new());
    let planner_model = PlannerModel::new(
        dates,
        location.id(),
        standard_set.id(),
        vec![Job::test()],
        vec![],
        HashMap::new(),
    );
    let results = generate_work_content(planner_model);
    assert!(!results.is_empty());
}

#[test]
fn integration_single_salaried_job_generates_correct_labor_data() {
    // Arrange: planner dates covering several days
    let start = Date::new(2025, 1, 1);
    let end = Date::new(2025, 1, 5); // inclusive range: 5 days
    let dates = DateRange::new(start, end);

    let location_id = LocationId::new();
    let standard_set_id = StandardSetId::new();

    // PlannerSettings configured for SALARIED with effective dates that
    // include the planner dates
    let mut settings = PlannerSettings::default();
    // Force the salaried generator path
    settings.standard_type = StandardType::SALARIED;
    // Ensure effective dates include the whole year to match planner dates
    settings.effective_dates = DateRange::new(Date::new(2025, 1, 1), Date::new(2025, 12, 31));

    // A salaried job with no shifts/standards (expected hours 0.0 per day)
    let job = Job::new(location_id, settings, vec![], vec![]);

    let planner_model = PlannerModel::new(
        dates,
        LocationId::new(),
        standard_set_id,
        vec![job],
        vec![],
        HashMap::new(),
    );

    // Act
    let results = generate_work_content(planner_model);

    // Assert: exactly one result corresponding to the job
    assert_eq!(results.len(), 1);

    let result = &results[0];
    // The salaried generator should produce labor data and no shifts
    assert!(result.shifts().is_none(), "Salaried should not produce shifts");
    let labor = result.labor_data().expect("Expected labor data for salaried job");

    // One labor entry per planner date
    assert_eq!(labor.len(), 5, "Expected a labor entry for each planner date");

    // All entries lie within the planner date range and carry zero hours
    // (no shifts/standards)
    for (i, ld) in labor.iter().enumerate() {
        assert!(
            date_le(start, ld.date()) && date_le(ld.date(), end),
            "labor date out of range: {:?}",
            ld.date()
        );
        assert_eq!(ld.hours(), 0, "expected zero hours on index {} (date {:?})", i, ld.date());
    }
}

#[test]
fn dispatcher_produces_one_result_per_job_in_order() {
    let dates = DateRange::new(Date::new(2025, 3, 1), Date::new(2025, 3, 3));

    let mut salaried_settings = PlannerSettings::default();
    salaried_settings.standard_type = StandardType::SALARIED;
    let mut basic_settings = PlannerSettings::default();
    basic_settings.standard_type = StandardType::BASIC;
    let mut advanced_settings = PlannerSettings::default();
    advanced_settings.standard_type = StandardType::ADVANCED;

    let none_job = Job::test();
    let salaried_job = Job::new(LocationId::new(), salaried_settings, vec![], vec![]);
    let basic_job = Job::new(LocationId::new(), basic_settings, vec![], vec![]);
    let advanced_job = Job::new(LocationId::new(), advanced_settings, vec![], vec![]);
    let ids = [none_job.id(), salaried_job.id(), basic_job.id(), advanced_job.id()];

    let planner_model = PlannerModel::new(
        dates,
        LocationId::new(),
        StandardSetId::new(),
        vec![none_job, salaried_job, basic_job, advanced_job],
        vec![],
        HashMap::new(),
    );

    let results = generate_work_content(planner_model);

    assert_eq!(results.len(), 4);
    for (i, result) in results.iter().enumerate() {
        assert_eq!(result.job_id(), ids[i]);
    }
    // NONE and BASIC yield empty shift lists; SALARIED and ADVANCED yield
    // labor data, one entry per date.
    assert_eq!(results[0].shifts().unwrap().len(), 0);
    assert_eq!(results[1].labor_data().unwrap().len(), 3);
    assert_eq!(results[2].shifts().unwrap().len(), 0);
    assert_eq!(results[3].labor_data().unwrap().len(), 3);
}
