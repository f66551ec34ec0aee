//! Per-job planner configuration: the labor-standard type, shift-length
//! bounds, break rules, rounding thresholds, and the annually recurring
//! effective-date window.

use crate::dates::{
    date_ord, spec_date_le, spec_month_length, spec_next_day, Date, DateRange, date_le, next_day,
};
use crate::model::PlannerModel;
use crate::numbers::HOURS_LIMIT;
use vstd::prelude::*;

verus! {

/// The labor-standard strategy governing how a job's required work is
/// computed.
#[allow(non_camel_case_types)]
#[derive(Debug, Clone, Copy, PartialEq, Eq, Structural)]
pub enum StandardType {
    NONE,
    BASIC,
    ADVANCED,
    SALARIED,
}

/// Whether a salaried standard's hours are allocated on a weekly or
/// monthly basis.
#[allow(non_camel_case_types)]
#[derive(Debug, Clone, Copy, PartialEq, Eq, Structural)]
pub enum SalaryMode {
    WEEKLY,
    MONTHLY,
}

/// How non-flowed work is distributed across a shift.
#[allow(non_camel_case_types)]
#[derive(Debug, Clone, Copy, PartialEq, Eq, Structural)]
pub enum NonFlowedDistributionMethod {
    BEGINNING,
    MIDDLE,
    END,
    EVEN,
    VARYING,
}

/// A meal break: granted once the shift reaches `break_after` hours.
/// Both fields are hundredths of an hour. A zero `break_length` means no
/// meal break applies.
#[derive(Debug, Clone, Copy, PartialEq, Eq, Structural)]
pub struct MealBreak {
    pub break_after: i64,
    pub break_length: i64,
}

impl MealBreak {
    pub open spec fn wf(self) -> bool {
        &&& 0 <= self.break_after <= HOURS_LIMIT
        &&& 0 <= self.break_length <= HOURS_LIMIT
    }
}

/// A periodic non-meal break: granted every `break_every` hours of work.
/// Both fields are hundredths of an hour. A zero `break_length` means no
/// non-meal break applies.
#[derive(Debug, Clone, Copy, PartialEq, Eq, Structural)]
pub struct NonMealBreak {
    pub break_every: i64,
    pub break_length: i64,
}

impl NonMealBreak {
    pub open spec fn wf(self) -> bool {
        &&& 0 <= self.break_every <= HOURS_LIMIT
        &&& 0 <= self.break_length <= HOURS_LIMIT
    }
}

/// A month/day pair that names a valid date in every year, so the
/// effective-date window can recur annually.
pub open spec fn spec_recurring_ok(d: Date) -> bool {
    &&& 1 <= d.month <= 12
    &&& 1 <= d.day <= spec_month_length(2001, d.month as int)
}

/// A recurring month/day pair re-anchored to `year` is a valid date.
pub proof fn lemma_recurring_anchored_wf(d: Date, year: i32)
    requires
        spec_recurring_ok(d),
        -9999 <= year <= 9998,
    ensures
        (Date { year, month: d.month, day: d.day }).wf(),
{
}

/// Per-job planner configuration. Hour-valued fields are hundredths of an
/// hour; `period_length` is whole minutes.
#[derive(Debug, Clone, Copy, PartialEq, Eq, Structural)]
pub struct PlannerSettings {
    pub standard_type: StandardType,
    pub period_length: u32,
    pub min_shift_length: i64,
    pub max_shift_length: i64,
    pub rounding_threshold_below_one: i64,
    pub rounding_threshold_above_one: i64,
    pub meal_break: Option<MealBreak>,
    pub non_meal_break: Option<NonMealBreak>,
    pub effective_dates: DateRange,
    pub generate_long_shifts: bool,
    pub limit_shift_to_max_shift: bool,
    pub truncate_max_coverage: bool,
    pub non_flowed_distribution_method: NonFlowedDistributionMethod,
}

impl PlannerSettings {
    /// Numerically valid configuration: non-negative bounded quantities, a
    /// positive rounding period, a periodic break with a positive interval
    /// wherever both break types effectively apply, and a recurring
    /// effective-date window valid in every year.
    pub open spec fn wf(self) -> bool {
        &&& 1 <= self.period_length <= 100_000
        &&& 0 <= self.min_shift_length <= HOURS_LIMIT
        &&& 0 <= self.max_shift_length <= HOURS_LIMIT
        &&& 0 <= self.rounding_threshold_below_one <= HOURS_LIMIT
        &&& 0 <= self.rounding_threshold_above_one <= HOURS_LIMIT
        &&& match self.meal_break {
            Some(b) => b.wf(),
            None => true,
        }
        &&& match self.non_meal_break {
            Some(b) => b.wf(),
            None => true,
        }
        &&& match (self.meal_break, self.non_meal_break) {
            (Some(m), Some(n)) => (m.break_length > 0 && n.break_length > 0)
                ==> n.break_every >= 1,
            _ => true,
        }
        &&& spec_recurring_ok(self.effective_dates.start_date)
        &&& spec_recurring_ok(self.effective_dates.end_date)
    }
}

impl Default for PlannerSettings {
    /// A NONE-typed configuration with a 30-minute period, a 4-hour
    /// minimum and 8-hour maximum shift, full rounding thresholds, no
    /// breaks, and a whole-year effective window.
    fn default() -> (r: PlannerSettings)
        ensures
            r == spec_default_settings(),
            r.wf(),
    {
        PlannerSettings {
            standard_type: StandardType::NONE,
            period_length: 30,
            min_shift_length: 400,
            max_shift_length: 800,
            rounding_threshold_below_one: 100,
            rounding_threshold_above_one: 100,
            meal_break: None,
            non_meal_break: None,
            effective_dates: DateRange {
                start_date: Date { year: 2021, month: 1, day: 1 },
                end_date: Date { year: 2021, month: 12, day: 31 },
            },
            generate_long_shifts: false,
            limit_shift_to_max_shift: false,
            truncate_max_coverage: false,
            non_flowed_distribution_method: NonFlowedDistributionMethod::VARYING,
        }
    }
}

/// The value `PlannerSettings::default` returns.
pub open spec fn spec_default_settings() -> PlannerSettings {
    PlannerSettings {
        standard_type: StandardType::NONE,
        period_length: 30,
        min_shift_length: 400,
        max_shift_length: 800,
        rounding_threshold_below_one: 100,
        rounding_threshold_above_one: 100,
        meal_break: None,
        non_meal_break: None,
        effective_dates: DateRange {
            start_date: Date { year: 2021, month: 1, day: 1 },
            end_date: Date { year: 2021, month: 12, day: 31 },
        },
        generate_long_shifts: false,
        limit_shift_to_max_shift: false,
        truncate_max_coverage: false,
        non_flowed_distribution_method: NonFlowedDistributionMethod::VARYING,
    }
}

/// Whether `d` lies in the effective-date window re-anchored to `d`'s own
/// year: the window recurs annually.
pub open spec fn spec_window_contains(window: DateRange, d: Date) -> bool {
    let s = Date { year: d.year, month: window.start_date.month, day: window.start_date.day };
    let e = Date { year: d.year, month: window.end_date.month, day: window.end_date.day };
    spec_date_le(s, d) && spec_date_le(d, e)
}

/// Termination measure for walking dates from `cur` up to `end`.
pub open spec fn date_range_measure(cur: Date, end: Date) -> int {
    if date_ord(cur) <= date_ord(end) {
        date_ord(end) - date_ord(cur) + 1
    } else {
        0
    }
}

/// The dates from `cur` through `end`, in order, that fall in the
/// annually recurring `window`.
pub open spec fn spec_effective_dates(window: DateRange, cur: Date, end: Date) -> Seq<Date>
    decreases date_range_measure(cur, end),
    via spec_effective_dates_decreases
{
    if !(cur.wf() && end.wf() && spec_date_le(cur, end)) {
        Seq::empty()
    } else {
        let rest = spec_effective_dates(window, spec_next_day(cur), end);
        if spec_window_contains(window, cur) {
            seq![cur] + rest
        } else {
            rest
        }
    }
}

#[via_fn]
proof fn spec_effective_dates_decreases(window: DateRange, cur: Date, end: Date) {
    if cur.wf() && end.wf() && spec_date_le(cur, end) {
        crate::dates::lemma_next_day_wf(cur);
        crate::dates::lemma_date_le_ord(cur, end);
    }
}

impl PlannerSettings {
    /// The planner dates on which this configuration is in effect: each
    /// date of the planning range whose annually re-anchored
    /// effective-date window contains it.
    pub fn dates(&self, planner_model: &PlannerModel) -> (r: Vec<Date>)
        requires
            self.wf(),
            planner_model.dates.wf(),
        ensures
            r@ == spec_effective_dates(
                self.effective_dates,
                planner_model.dates.start_date,
                planner_model.dates.end_date,
            ),
            forall|i: int| 0 <= i < r@.len() ==> (#[trigger] r@[i]).wf(),
    {
        let mut out: Vec<Date> = Vec::new();
        let mut cur: Date = planner_model.dates.start_date;
        let end: Date = planner_model.dates.end_date;
        let ghost start: Date = cur;
        while date_le(cur, end)
            invariant
                self.wf(),
                cur.wf() || !spec_date_le(cur, end),
                end.wf(),
                start.wf(),
                out@ + spec_effective_dates(self.effective_dates, cur, end)
                    == spec_effective_dates(self.effective_dates, start, end),
                forall|i: int| 0 <= i < out@.len() ==> (#[trigger] out@[i]).wf(),
            decreases date_range_measure(cur, end),
        {
            let window_start = Date {
                year: cur.year,
                month: self.effective_dates.start_date.month,
                day: self.effective_dates.start_date.day,
            };
            let window_end = Date {
                year: cur.year,
                month: self.effective_dates.end_date.month,
                day: self.effective_dates.end_date.day,
            };
            proof {
                lemma_recurring_anchored_wf(self.effective_dates.start_date, cur.year);
                lemma_recurring_anchored_wf(self.effective_dates.end_date, cur.year);
            }
            let window = DateRange { start_date: window_start, end_date: window_end };
            proof {
                crate::dates::lemma_next_day_wf(cur);
            }
            let ghost out_before = out@;
            if window.contains_date(cur) {
                out.push(cur);
                assert(out@ =~= out_before + seq![cur]);
                assert(out_before + (seq![cur] + spec_effective_dates(
                    self.effective_dates,
                    spec_next_day(cur),
                    end,
                )) =~= out@ + spec_effective_dates(self.effective_dates, spec_next_day(cur), end));
            }
            cur = next_day(cur);
        }
        out
    }
}

} // verus!
