//! The work-per-unit calculator. Standard values and shift lengths are
//! hundredths (150 is 1.5); results are hundredths of a minute (90000 is
//! 900.00 minutes).

use planner::per_unit::{Units, WorkPerUnitCalculator};

#[test]
fn hours_per_unit_calculates_minutes_and_formula() {
    let calc = WorkPerUnitCalculator::new();
    let result = calc.calculate(Units::HoursPerUnit, 150, 10, 800).unwrap();
    assert_eq!(result.work_in_minutes(), 900_00);
    assert_eq!(result.formula(), "1.5 * 10 * 60");
}

#[test]
fn minutes_per_unit_calculates_minutes_and_formula() {
    let calc = WorkPerUnitCalculator::new();
    let result = calc.calculate(Units::MinutesPerUnit, 225, 4, 800).unwrap();
    assert_eq!(result.work_in_minutes(), 9_00);
    assert_eq!(result.formula(), "2.25 * 4");
}

#[test]
fn units_per_hour_calculates_minutes_and_formula_with_trimming() {
    let calc = WorkPerUnitCalculator::new();
    let result = calc.calculate(Units::UnitsPerHour, 500, 20, 800).unwrap();
    assert_eq!(result.work_in_minutes(), 240_00);
    assert_eq!(result.formula(), "20 / 5 * 60"); // 5.00 trimmed to 5
}

#[test]
fn units_per_minute_calculates_minutes_and_formula() {
    let calc = WorkPerUnitCalculator::new();
    let result = calc.calculate(Units::UnitsPerMinute, 250, 15, 800).unwrap();
    assert_eq!(result.work_in_minutes(), 6_00);
    assert_eq!(result.formula(), "15 / 2.5");
}

#[test]
fn hours_calculates_minutes_and_formula() {
    let calc = WorkPerUnitCalculator::new();
    let result = calc.calculate(Units::Hours, 300, 0, 0).unwrap();
    assert_eq!(result.work_in_minutes(), 180_00);
    assert_eq!(result.formula(), "3 * 60");
}

#[test]
fn minutes_calculates_minutes_and_formula() {
    let calc = WorkPerUnitCalculator::new();
    let result = calc.calculate(Units::Minutes, 1750, 0, 0).unwrap();
    assert_eq!(result.work_in_minutes(), 17_50);
    assert_eq!(result.formula(), "17.5");
}

#[test]
fn units_per_shift_calculates_minutes_and_formula() {
    let calc = WorkPerUnitCalculator::new();
    let result = calc.calculate(Units::UnitsPerShift, 1000, 100, 750).unwrap();
    assert_eq!(result.work_in_minutes(), 4500_00);
    assert_eq!(result.formula(), "100 / 10 * 7.5 * 60");
}

#[test]
fn zero_standard_value_returns_none() {
    let calc = WorkPerUnitCalculator::new();
    let result = calc.calculate(Units::MinutesPerUnit, 0, 10, 800);
    assert!(result.is_none());
}

#[test]
fn rounding_to_two_decimals_is_applied() {
    let calc = WorkPerUnitCalculator::new();
    // 22 units over a 7-minute standard: 22 / 7 = 3.142857... rounds to
    // 3.14 minutes.
    let result = calc.calculate(Units::UnitsPerMinute, 700, 22, 0).unwrap();
    assert_eq!(result.work_in_minutes(), 3_14);
}
