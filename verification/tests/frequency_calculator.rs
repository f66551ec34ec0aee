//! The frequency calculator. Expectancies are hundredths of a minute.

use planner::frequency::{
    Environment, FrequencyCalculator, TaskStandardDetail, TaskStandardFrequency, TaskStandardRange,
};

fn make_detail(
    re: i64,
    items: i32,
    ranges: Vec<(TaskStandardRange, Vec<TaskStandardFrequency>)>,
) -> TaskStandardDetail {
    TaskStandardDetail::new(re, items).with_ranges(ranges)
}

#[test]
fn calculates_minutes_when_range_and_environment_match() {
    let env1 = Environment::new(1);
    let env2 = Environment::new(2);
    let detail = make_detail(
        123, // 1.23 minutes per item
        3,
        vec![
            (
                TaskStandardRange::new(0, 100),
                vec![
                    TaskStandardFrequency::new(env2, 5),
                    TaskStandardFrequency::new(env1, 2),
                ],
            ),
        ],
    );

    let calc = FrequencyCalculator::new();
    let res = calc.calculate_frequency_minutes(&detail, 50, env1).expect("expected some result");

    // expectancy for items = 1.23 * 3 = 3.69; total = 3.69 * 2 = 7.38
    assert_eq!(res.work_in_minutes(), 7_38);
    assert_eq!(res.formula(), "3.69 * 2");
}

#[test]
fn returns_none_when_no_range_matches_business_driver() {
    let env = Environment::new(1);
    let detail = make_detail(
        200,
        1,
        vec![(TaskStandardRange::new(10, 20), vec![TaskStandardFrequency::new(env, 3)])],
    );
    let calc = FrequencyCalculator::new();
    let res = calc.calculate_frequency_minutes(&detail, 5, env);
    assert!(res.is_none());
}

#[test]
fn returns_none_when_environment_not_found_in_matching_range() {
    let env1 = Environment::new(1);
    let env2 = Environment::new(2);
    let detail = make_detail(
        150,
        4,
        vec![(TaskStandardRange::new(0, 10), vec![TaskStandardFrequency::new(env1, 3)])],
    );
    let calc = FrequencyCalculator::new();
    let res = calc.calculate_frequency_minutes(&detail, 7, env2);
    assert!(res.is_none());
}

#[test]
fn picks_correct_range_and_env_among_multiple() {
    let env1 = Environment::new(1);
    let env2 = Environment::new(2);
    let env3 = Environment::new(3);
    let detail = make_detail(
        75, // 0.75 minutes per item
        8,  // items: 6.0 minutes per occurrence
        vec![
            (
                TaskStandardRange::new(0, 5),
                vec![TaskStandardFrequency::new(env1, 10)],
            ),
            (
                TaskStandardRange::new(6, 10),
                vec![
                    TaskStandardFrequency::new(env2, 4),
                    TaskStandardFrequency::new(env3, 7),
                ],
            ),
        ],
    );

    let calc = FrequencyCalculator::new();

    // In range 6..=10, for env3 frequency is 7
    let res = calc.calculate_frequency_minutes(&detail, 9, env3).expect("some");
    // expectancy for items = 0.75 * 8 = 6.0; total = 6 * 7 = 42.0
    assert_eq!(res.work_in_minutes(), 42_00);
    assert_eq!(res.formula(), "6.00 * 7");

    // Same range but env2: frequency 4
    let res2 = calc.calculate_frequency_minutes(&detail, 9, env2).expect("some");
    assert_eq!(res2.work_in_minutes(), 24_00);
    assert_eq!(res2.formula(), "6.00 * 4");
}

#[test]
fn range_bounds_are_inclusive() {
    let range = TaskStandardRange::new(3, 9);
    assert!(range.contains_value(3));
    assert!(range.contains_value(9));
    assert!(!range.contains_value(2));
    assert!(!range.contains_value(10));
}

#[test]
fn frequency_getters_return_fields() {
    let env = Environment::new(4);
    let freq = TaskStandardFrequency::new(env, 11);
    assert_eq!(*freq.environment(), env);
    assert_eq!(freq.frequency(), 11);
    let detail = TaskStandardDetail::new(120, 2);
    assert_eq!(detail.reasonable_expectancy(), 120);
    assert_eq!(detail.number_of_items(), 2);
    assert_eq!(detail.task_standard_ranges().len(), 0);
}

#[test]
fn only_the_first_containing_range_is_consulted() {
    let env1 = Environment::new(1);
    let env2 = Environment::new(2);
    // Two overlapping ranges: the first containing range has no entry for
    // env2, so the lookup yields nothing even though the second range
    // would have matched.
    let detail = make_detail(
        100,
        1,
        vec![
            (TaskStandardRange::new(0, 50), vec![TaskStandardFrequency::new(env1, 3)]),
            (TaskStandardRange::new(0, 100), vec![TaskStandardFrequency::new(env2, 9)]),
        ],
    );
    let calc = FrequencyCalculator::new();
    assert!(calc.calculate_frequency_minutes(&detail, 25, env2).is_none());
    // env1 is found in the first range.
    let hit = calc.calculate_frequency_minutes(&detail, 25, env1).unwrap();
    assert_eq!(hit.work_in_minutes(), 3_00);
}
