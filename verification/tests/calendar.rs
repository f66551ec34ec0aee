//! The calendar wrappers and the effective-date walk.

use planner::dates::{date_le, day_of_week_value, month_length, next_day, Date, DateRange};
use planner::model::PlannerModel;
use planner::settings::PlannerSettings;
use planner::ids::{LocationId, StandardSetId};
use std::collections::HashMap;

#[test]
fn month_length_follows_the_gregorian_table() {
    assert_eq!(month_length(2025, 1), 31);
    assert_eq!(month_length(2025, 2), 28);
    assert_eq!(month_length(2024, 2), 29);
    assert_eq!(month_length(2000, 2), 29);
    assert_eq!(month_length(1900, 2), 28);
    assert_eq!(month_length(2025, 4), 30);
    assert_eq!(month_length(2025, 12), 31);
}

#[test]
fn day_of_week_numbers_monday_one_through_sunday_seven() {
    assert_eq!(day_of_week_value(Date::new(2025, 1, 6)), 1); // Monday
    assert_eq!(day_of_week_value(Date::new(2025, 1, 5)), 7); // Sunday
    assert_eq!(day_of_week_value(Date::new(2025, 1, 4)), 6); // Saturday
}

#[test]
fn next_day_rolls_months_and_years() {
    assert_eq!(next_day(Date::new(2025, 1, 6)), Date::new(2025, 1, 7));
    assert_eq!(next_day(Date::new(2024, 2, 28)), Date::new(2024, 2, 29));
    assert_eq!(next_day(Date::new(2025, 2, 28)), Date::new(2025, 3, 1));
    assert_eq!(next_day(Date::new(2024, 12, 31)), Date::new(2025, 1, 1));
}

#[test]
fn date_range_containment_is_inclusive() {
    let range = DateRange::new(Date::new(2025, 1, 2), Date::new(2025, 1, 5));
    assert!(range.contains_date(Date::new(2025, 1, 2)));
    assert!(range.contains_date(Date::new(2025, 1, 4)));
    assert!(range.contains_date(Date::new(2025, 1, 5)));
    assert!(!range.contains_date(Date::new(2025, 1, 1)));
    assert!(!range.contains_date(Date::new(2025, 1, 6)));
    assert!(date_le(Date::new(2025, 1, 2), Date::new(2025, 1, 2)));
    assert!(!date_le(Date::new(2025, 2, 1), Date::new(2025, 1, 28)));
}

#[test]
fn effective_dates_reanchor_the_window_each_year() {
    // The stored window names 2021, but containment re-anchors it to the
    // candidate date's own year, so a June-through-December window admits
    // June 2025 and rejects May 2025.
    let mut settings = PlannerSettings::default();
    settings.effective_dates = DateRange::new(Date::new(2021, 6, 1), Date::new(2021, 12, 31));
    let model = PlannerModel::new(
        DateRange::new(Date::new(2025, 5, 30), Date::new(2025, 6, 2)),
        LocationId::new(),
        StandardSetId::new(),
        vec![],
        vec![],
        HashMap::new(),
    );

    let dates = settings.dates(&model);

    assert_eq!(dates, vec![Date::new(2025, 6, 1), Date::new(2025, 6, 2)]);
}

#[test]
fn effective_dates_keep_the_whole_range_for_a_full_year_window() {
    let settings = PlannerSettings::default();
    let model = PlannerModel::new(
        DateRange::new(Date::new(2025, 12, 30), Date::new(2026, 1, 2)),
        LocationId::new(),
        StandardSetId::new(),
        vec![],
        vec![],
        HashMap::new(),
    );

    let dates = settings.dates(&model);

    assert_eq!(
        dates,
        vec![
            Date::new(2025, 12, 30),
            Date::new(2025, 12, 31),
            Date::new(2026, 1, 1),
            Date::new(2026, 1, 2),
        ]
    );
}
