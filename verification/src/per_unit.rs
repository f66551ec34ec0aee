//! The work-per-unit calculator for advanced labor standards: converts a
//! business-driver volume into work minutes under one of seven unit
//! semantics, with a human-readable formula trace.

use crate::numbers::{round_ratio_signed, spec_round_ratio_signed, HOURS_LIMIT};
use crate::text::{int_string, spec_int_string, spec_trim2, trim2_string};
use vstd::prelude::*;
use vstd::string::StringExecFns;

verus! {

/// Largest business-driver volume the calculator accepts.
pub const DRIVER_LIMIT: i32 = 10_000_000;

/// The unit semantics of an advanced standard's value.
#[derive(Debug, Clone, Copy, PartialEq, Eq, Structural)]
pub enum Units {
    Hours,
    Minutes,
    HoursPerUnit,
    MinutesPerUnit,
    UnitsPerHour,
    UnitsPerMinute,
    UnitsPerShift,
}

/// A calculator outcome: required work in hundredths of a minute, and the
/// formula that produced it, for audit and display.
#[derive(Debug, Clone)]
pub struct WorkContentLogDetail {
    pub work_in_minutes: i64,
    pub formula: String,
}

impl WorkContentLogDetail {
    pub fn new(work_in_minutes: i64, formula: String) -> (r: WorkContentLogDetail)
        ensures
            r.work_in_minutes == work_in_minutes,
            r.formula == formula,
    {
        WorkContentLogDetail { work_in_minutes, formula }
    }

    pub fn work_in_minutes(&self) -> (r: i64)
        ensures
            r == self.work_in_minutes,
    {
        self.work_in_minutes
    }

    pub fn formula(&self) -> (r: &str)
        ensures
            r@ == self.formula@,
    {
        self.formula.as_str()
    }
}

impl Default for WorkContentLogDetail {
    /// Zero minutes and an empty formula.
    fn default() -> (r: WorkContentLogDetail)
        ensures
            r.work_in_minutes == 0,
            r.formula@ == Seq::<char>::empty(),
    {
        WorkContentLogDetail { work_in_minutes: 0, formula: String::new() }
    }
}

/// Required work in hundredths of a minute for one driver volume, by unit
/// kind. `standard_value` and `shift_length` are hundredths; meaningful
/// only when `standard_value` is non-zero.
pub open spec fn spec_unit_work_minutes(
    units: Units,
    standard_value: int,
    business_driver_value: int,
    shift_length: int,
) -> int
    recommends
        standard_value != 0,
{
    match units {
        Units::Hours => 60 * standard_value,
        Units::Minutes => standard_value,
        Units::HoursPerUnit => 60 * standard_value * business_driver_value,
        Units::MinutesPerUnit => standard_value * business_driver_value,
        Units::UnitsPerHour => spec_round_ratio_signed(
            600_000 * business_driver_value,
            standard_value,
        ),
        Units::UnitsPerMinute => spec_round_ratio_signed(
            10_000 * business_driver_value,
            standard_value,
        ),
        Units::UnitsPerShift => spec_round_ratio_signed(
            6_000 * business_driver_value * shift_length,
            standard_value,
        ),
    }
}

/// The formula trace for one driver volume, by unit kind: numbers are
/// rendered with trailing fraction zeros trimmed.
pub open spec fn spec_unit_formula(
    units: Units,
    standard_value: int,
    business_driver_value: int,
    shift_length: int,
) -> Seq<char> {
    match units {
        Units::Hours => spec_trim2(standard_value) + " * 60"@,
        Units::Minutes => spec_trim2(standard_value),
        Units::HoursPerUnit => spec_trim2(standard_value) + " * "@ + spec_int_string(
            business_driver_value,
        ) + " * 60"@,
        Units::MinutesPerUnit => spec_trim2(standard_value) + " * "@ + spec_int_string(
            business_driver_value,
        ),
        Units::UnitsPerHour => spec_int_string(business_driver_value) + " / "@ + spec_trim2(
            standard_value,
        ) + " * 60"@,
        Units::UnitsPerMinute => spec_int_string(business_driver_value) + " / "@ + spec_trim2(
            standard_value,
        ),
        Units::UnitsPerShift => spec_int_string(business_driver_value) + " / "@ + spec_trim2(
            standard_value,
        ) + " * "@ + spec_trim2(shift_length) + " * 60"@,
    }
}

/// Largest magnitude (hundredths of a minute) a per-unit result can take
/// when the shift length stays within a few hundred hours, as it does when
/// it is derived from a shift definition's window.
pub const UNIT_MINUTES_LIMIT: i64 = 2_000_000_000_000_000;

/// With a bounded standard value, driver volume, and a shift length drawn
/// from a shift definition's window, every unit kind's result stays within
/// `UNIT_MINUTES_LIMIT`.
pub proof fn lemma_unit_work_minutes_bound(
    units: Units,
    standard_value: int,
    business_driver_value: int,
    shift_length: int,
)
    requires
        standard_value != 0,
        -1_000_000 <= standard_value <= 1_000_000,
        -10_000_000 <= business_driver_value <= 10_000_000,
        -20_000 <= shift_length <= 20_000,
    ensures
        -UNIT_MINUTES_LIMIT <= spec_unit_work_minutes(
            units,
            standard_value,
            business_driver_value,
            shift_length,
        ) <= UNIT_MINUTES_LIMIT,
{
    match units {
        Units::Hours => {},
        Units::Minutes => {},
        Units::HoursPerUnit => {
            assert(-(60 * 1_000_000 * 10_000_000) <= 60 * standard_value * business_driver_value
                <= 60 * 1_000_000 * 10_000_000) by (nonlinear_arith)
                requires
                    -1_000_000 <= standard_value <= 1_000_000,
                    -10_000_000 <= business_driver_value <= 10_000_000,
            ;
        },
        Units::MinutesPerUnit => {
            assert(-(1_000_000 * 10_000_000) <= standard_value * business_driver_value <= 1_000_000
                * 10_000_000) by (nonlinear_arith)
                requires
                    -1_000_000 <= standard_value <= 1_000_000,
                    -10_000_000 <= business_driver_value <= 10_000_000,
            ;
        },
        Units::UnitsPerHour => {
            crate::numbers::lemma_round_ratio_signed_magnitude(
                600_000 * business_driver_value,
                standard_value,
            );
        },
        Units::UnitsPerMinute => {
            crate::numbers::lemma_round_ratio_signed_magnitude(
                10_000 * business_driver_value,
                standard_value,
            );
        },
        Units::UnitsPerShift => {
            assert(-(6_000 * 10_000_000 * 20_000) <= 6_000 * business_driver_value * shift_length
                <= 6_000 * 10_000_000 * 20_000) by (nonlinear_arith)
                requires
                    -10_000_000 <= business_driver_value <= 10_000_000,
                    -20_000 <= shift_length <= 20_000,
            ;
            crate::numbers::lemma_round_ratio_signed_magnitude(
                6_000 * business_driver_value * shift_length,
                standard_value,
            );
        },
    }
}

pub struct WorkPerUnitCalculator;

impl WorkPerUnitCalculator {
    pub fn new() -> Self {
        Self
    }

    /// Converts a business-driver volume into required work minutes under
    /// the given unit semantics. A standard value of exactly zero yields
    /// no result, for any unit kind: division by zero is never performed.
    pub fn calculate(
        &self,
        units: Units,
        standard_value: i64,
        business_driver_value: i32,
        shift_length: i64,
    ) -> (r: Option<WorkContentLogDetail>)
        requires
            -HOURS_LIMIT <= standard_value <= HOURS_LIMIT,
            -DRIVER_LIMIT <= business_driver_value <= DRIVER_LIMIT,
            -HOURS_LIMIT <= shift_length <= HOURS_LIMIT,
        ensures
            r is Some <==> standard_value != 0,
            match r {
                Some(detail) => {
                    &&& detail.work_in_minutes == spec_unit_work_minutes(
                        units,
                        standard_value as int,
                        business_driver_value as int,
                        shift_length as int,
                    )
                    &&& detail.formula@ == spec_unit_formula(
                        units,
                        standard_value as int,
                        business_driver_value as int,
                        shift_length as int,
                    )
                },
                None => true,
            },
    {
        if standard_value == 0 {
            return None;
        }
        let driver: i64 = business_driver_value as i64;
        match units {
            Units::Hours => {
                let mut formula = trim2_string(standard_value);
                formula.append(" * 60");
                Some(WorkContentLogDetail::new(60 * standard_value, formula))
            },
            Units::Minutes => {
                let formula = trim2_string(standard_value);
                Some(WorkContentLogDetail::new(standard_value, formula))
            },
            Units::HoursPerUnit => {
                let mut formula = trim2_string(standard_value);
                formula.append(" * ");
                formula.append(int_string(driver).as_str());
                formula.append(" * 60");
                proof {
                    assert(-(60 * 1_000_000 * 10_000_000) <= 60 * (standard_value as int) * (
                    driver as int) <= 60 * 1_000_000 * 10_000_000) by (nonlinear_arith)
                        requires
                            -1_000_000 <= standard_value as int <= 1_000_000,
                            -10_000_000 <= driver as int <= 10_000_000,
                    ;
                }
                Some(WorkContentLogDetail::new(60 * standard_value * driver, formula))
            },
            Units::MinutesPerUnit => {
                let mut formula = trim2_string(standard_value);
                formula.append(" * ");
                formula.append(int_string(driver).as_str());
                proof {
                    assert(-(1_000_000 * 10_000_000) <= (standard_value as int) * (driver as int)
                        <= 1_000_000 * 10_000_000) by (nonlinear_arith)
                        requires
                            -1_000_000 <= standard_value as int <= 1_000_000,
                            -10_000_000 <= driver as int <= 10_000_000,
                    ;
                }
                Some(WorkContentLogDetail::new(standard_value * driver, formula))
            },
            Units::UnitsPerHour => {
                let mut formula = int_string(driver);
                formula.append(" / ");
                formula.append(trim2_string(standard_value).as_str());
                formula.append(" * 60");
                let work = round_ratio_signed(600_000 * driver, standard_value);
                Some(WorkContentLogDetail::new(work, formula))
            },
            Units::UnitsPerMinute => {
                let mut formula = int_string(driver);
                formula.append(" / ");
                formula.append(trim2_string(standard_value).as_str());
                let work = round_ratio_signed(10_000 * driver, standard_value);
                Some(WorkContentLogDetail::new(work, formula))
            },
            Units::UnitsPerShift => {
                let mut formula = int_string(driver);
                formula.append(" / ");
                formula.append(trim2_string(standard_value).as_str());
                formula.append(" * ");
                formula.append(trim2_string(shift_length).as_str());
                formula.append(" * 60");
                proof {
                    assert(6_000 * (driver as int) * (shift_length as int)
                        <= 6_000 * 10_000_000 * 1_000_000 && 6_000 * (driver as int)
                        * (shift_length as int) >= -(6_000 * 10_000_000 * 1_000_000))
                        by (nonlinear_arith)
                        requires
                            -10_000_000 <= driver as int <= 10_000_000,
                            -1_000_000 <= shift_length as int <= 1_000_000,
                    ;
                }
                let work = round_ratio_signed(6_000 * driver * shift_length, standard_value);
                Some(WorkContentLogDetail::new(work, formula))
            },
        }
    }
}

} // verus!
