//! The break/rounding calculator for BASIC labor standards.
//!
//! It turns a total demand of work minutes into a count of full shifts, a
//! rounded fractional remainder, and the paid break hours owed on top.
//! All hour values are hundredths of an hour.

use crate::numbers::{
    div_floor, mod_floor, round_ratio, spec_round_ratio, HOURS_LIMIT,
};
use crate::settings::{MealBreak, NonMealBreak, PlannerSettings};
use vstd::arithmetic::div_mod::{
    lemma_div_nonincreasing, lemma_div_pos_is_pos, lemma_fundamental_div_mod,
    lemma_fundamental_div_mod_converse, lemma_mod_division_less_than_divisor,
    lemma_remainder_lower,
};
use vstd::prelude::*;

verus! {

/// Largest shift length the break-composition rules accept, in hundredths
/// of an hour. The period-rounded remainder can exceed a configured shift
/// length, so this sits far above `HOURS_LIMIT`.
pub const BREAK_INPUT_LIMIT: i64 = 1_000_000_000_000;

/// Largest total work demand the calculator accepts, in minutes.
pub const WORK_MINUTES_LIMIT: i32 = 60_000_000;

/// The smallest multiple of `every` strictly greater than `after`.
pub open spec fn spec_first_multiple_after(after: int, every: int) -> int
    recommends
        0 <= after,
        1 <= every,
{
    every * (after / every + 1)
}

pub proof fn lemma_first_multiple_bounds(after: int, every: int)
    requires
        0 <= after,
        1 <= every,
    ensures
        every <= spec_first_multiple_after(after, every) <= after + every,
        spec_first_multiple_after(after, every) > after,
{
    lemma_fundamental_div_mod(after, every);
    lemma_div_pos_is_pos(after, every);
    lemma_mod_division_less_than_divisor(after, every);
    assert(every * (after / every + 1) == every * (after / every) + every) by (nonlinear_arith);
    assert(every * (after / every) == after - after % every);
}

/// Break hours granted when only a meal break applies.
pub open spec fn spec_break_meal_only(shift_length: int, meal: MealBreak) -> int {
    if shift_length < meal.break_after {
        0
    } else {
        meal.break_length as int
    }
}

/// Break hours granted when only the periodic non-meal break applies: one
/// break once the first interval is reached, and one more for each further
/// interval-plus-break span.
pub open spec fn spec_break_non_meal_only(shift_length: int, non_meal: NonMealBreak) -> int {
    if shift_length < non_meal.break_every {
        0
    } else {
        (1 + (shift_length - non_meal.break_every) / (non_meal.break_every as int
            + non_meal.break_length)) * non_meal.break_length
    }
}

/// Break hours granted when both break types apply, tiered by shift
/// length.
pub open spec fn spec_break_both(shift_length: int, meal: MealBreak, non_meal: NonMealBreak) -> int {
    if shift_length < non_meal.break_every {
        0
    } else if shift_length < meal.break_after {
        non_meal.break_length as int
    } else if shift_length < spec_first_multiple_after(
        meal.break_after as int,
        non_meal.break_every as int,
    ) {
        non_meal.break_length + meal.break_length
    } else {
        2 * non_meal.break_length + meal.break_length
    }
}

/// Paid break hours a shift of `shift_length` hours incurs. A break type
/// is inert when absent or zero-length; with no break configuration at
/// all, no breaks are granted.
pub open spec fn spec_break_hours(
    shift_length: int,
    meal: Option<MealBreak>,
    non_meal: Option<NonMealBreak>,
) -> int {
    match (meal, non_meal) {
        (Some(m), Some(n)) => {
            if m.break_length == 0 && n.break_length == 0 {
                0
            } else if m.break_length == 0 {
                spec_break_non_meal_only(shift_length, n)
            } else if n.break_length == 0 {
                spec_break_meal_only(shift_length, m)
            } else {
                spec_break_both(shift_length, m, n)
            }
        },
        _ => 0,
    }
}

/// Productive hours of a shift when only a meal break applies.
pub open spec fn spec_productive_meal_only(shift_length: int, meal: MealBreak) -> int {
    if shift_length >= meal.break_after + meal.break_length {
        shift_length - meal.break_length
    } else {
        shift_length
    }
}

/// Productive hours of a shift when only the non-meal break applies.
pub open spec fn spec_productive_non_meal_only(shift_length: int, non_meal: NonMealBreak) -> int {
    shift_length - (shift_length / (non_meal.break_every as int + non_meal.break_length))
        * non_meal.break_length
}

/// Productive hours of a shift when both break types apply: the non-meal,
/// meal, and second non-meal break are each subtracted once the remaining
/// productive span reaches its threshold.
pub open spec fn spec_productive_both(
    shift_length: int,
    meal: MealBreak,
    non_meal: NonMealBreak,
) -> int {
    let p1 = if shift_length >= non_meal.break_every + non_meal.break_length {
        shift_length - non_meal.break_length
    } else {
        shift_length
    };
    let p2 = if p1 >= meal.break_after + meal.break_length {
        p1 - meal.break_length
    } else {
        p1
    };
    if p2 >= spec_first_multiple_after(meal.break_after as int, non_meal.break_every as int)
        + non_meal.break_length {
        p2 - non_meal.break_length
    } else {
        p2
    }
}

/// Productive hours of a shift of `shift_length` hours: the shift net of
/// the paid breaks it incurs.
pub open spec fn spec_productive_time(
    shift_length: int,
    meal: Option<MealBreak>,
    non_meal: Option<NonMealBreak>,
) -> int {
    match (meal, non_meal) {
        (Some(m), Some(n)) => {
            if m.break_length == 0 && n.break_length == 0 {
                shift_length
            } else if n.break_length == 0 {
                spec_productive_meal_only(shift_length, m)
            } else if m.break_length == 0 {
                spec_productive_non_meal_only(shift_length, n)
            } else {
                spec_productive_both(shift_length, m, n)
            }
        },
        _ => shift_length,
    }
}

/// The shift length the calculator works with: capped at the configured
/// maximum when one is set.
pub open spec fn spec_effective_shift_length(s: PlannerSettings, shift_length: int) -> int {
    if s.max_shift_length > 0 && s.max_shift_length < shift_length {
        s.max_shift_length as int
    } else {
        shift_length
    }
}

/// Total demanded work in hundredths of an hour: `minutes / 60` rounded to
/// two decimals.
pub open spec fn spec_total_work_hours(total_work_minutes: int) -> int {
    spec_round_ratio(100 * total_work_minutes, 60)
}

/// Whole minutes of an hours value held in hundredths, rounded half away
/// from zero.
pub open spec fn spec_minutes_of(hundredth_hours: int) -> int {
    spec_round_ratio(60 * hundredth_hours, 100)
}

/// The zero-out threshold in minutes: the rounding period scaled by the
/// threshold fraction for the zero-shift or some-shift case, truncated.
pub open spec fn spec_threshold_minutes(s: PlannerSettings, full_time_shifts: int) -> int {
    let fraction = if full_time_shifts < 1 {
        s.rounding_threshold_below_one
    } else {
        s.rounding_threshold_above_one
    };
    (s.period_length * fraction) / 100
}

/// A remainder snapped to the rounding period: a positive remainder under
/// one period becomes one period; otherwise it moves to the nearest
/// whole-period multiple, ties away from zero.
pub open spec fn spec_round_to_period(remaining: int, period_length: int) -> int {
    let minutes = spec_minutes_of(remaining);
    if minutes > 0 && minutes < period_length {
        spec_round_ratio(100 * period_length, 60)
    } else {
        spec_round_ratio(100 * (spec_round_ratio(minutes, period_length) * period_length), 60)
    }
}

/// The remainder before period snapping: the work left over from full
/// shifts, zeroed below the threshold, else raised to the minimum shift
/// length (capped at the shift itself).
pub open spec fn spec_remaining_before_period(
    s: PlannerSettings,
    productive: int,
    total_work_hours: int,
    full_time_shifts: int,
    shift_length: int,
) -> int {
    let rem = total_work_hours % productive;
    if spec_minutes_of(rem) < spec_threshold_minutes(s, full_time_shifts) {
        0
    } else if rem < s.min_shift_length {
        if shift_length < s.min_shift_length {
            shift_length
        } else {
            s.min_shift_length as int
        }
    } else {
        rem
    }
}

/// The rounded remaining work hours after full shifts are taken out.
pub open spec fn spec_remaining_work_hours(
    s: PlannerSettings,
    productive: int,
    total_work_hours: int,
    full_time_shifts: int,
    shift_length: int,
) -> int {
    spec_round_to_period(
        spec_remaining_before_period(s, productive, total_work_hours, full_time_shifts, shift_length),
        s.period_length as int,
    )
}

/// What the calculator produces for one shift assignment.
#[derive(Debug, Clone, Copy, PartialEq, Eq, Structural)]
pub struct BasicCalculationResult {
    /// Whole shifts fully covered by the demanded work.
    pub number_of_full_time_shifts: i32,
    /// The rounded remainder plus its own paid breaks, hundredths of an
    /// hour.
    pub remaining_work_hours: i64,
    /// Paid break hours owed for the full shifts and the remainder,
    /// hundredths of an hour.
    pub work_hours_to_cover_breaks: i64,
}

pub struct BasicCalculator;

impl BasicCalculator {
    pub fn new() -> Self {
        Self
    }

    /// Converts a total demand of productive work minutes into full
    /// shifts, a rounded remainder, and paid break hours. Requires a
    /// configuration whose full shift keeps positive productive time;
    /// validating that is the caller's concern.
    pub fn calculate(
        &self,
        planner_settings: &PlannerSettings,
        shift_length: i64,
        total_work_minutes: i32,
    ) -> (r: BasicCalculationResult)
        requires
            planner_settings.wf(),
            0 <= shift_length <= HOURS_LIMIT,
            0 <= total_work_minutes <= WORK_MINUTES_LIMIT,
            spec_productive_time(
                spec_effective_shift_length(*planner_settings, shift_length as int),
                planner_settings.meal_break,
                planner_settings.non_meal_break,
            ) >= 1,
        ensures
            ({
                let len = spec_effective_shift_length(*planner_settings, shift_length as int);
                let prod = spec_productive_time(
                    len,
                    planner_settings.meal_break,
                    planner_settings.non_meal_break,
                );
                let twh = spec_total_work_hours(total_work_minutes as int);
                let full = twh / prod;
                let rem = spec_remaining_work_hours(*planner_settings, prod, twh, full, len);
                let rem_break = if rem == 0 {
                    0
                } else {
                    spec_break_hours(
                        rem,
                        planner_settings.meal_break,
                        planner_settings.non_meal_break,
                    )
                };
                &&& r.number_of_full_time_shifts as int == full
                &&& r.remaining_work_hours as int == rem + rem_break
                &&& r.work_hours_to_cover_breaks as int == full * (len - prod) + rem_break
            }),
    {
        let settings = *planner_settings;
        let len = self.get_shift_length(&settings, shift_length);
        let prod = Self::calculate_productive_time_from_total_duration(
            len,
            settings.meal_break,
            settings.non_meal_break,
        );
        proof {
            lemma_productive_time_le(
                len as int,
                settings.meal_break,
                settings.non_meal_break,
            );
        }
        let break_per_shift = len - prod;

        let twh = round_ratio(100 * (total_work_minutes as i64), 60);
        proof {
            crate::numbers::lemma_round_ratio_nonneg_le(
                100 * (total_work_minutes as int),
                60,
            );
            crate::numbers::lemma_round_ratio_upper(100 * (total_work_minutes as int), 60);
            assert(100 * (total_work_minutes as int) / 60 <= 200_000_000 - 1) by (nonlinear_arith)
                requires
                    0 <= total_work_minutes <= WORK_MINUTES_LIMIT,
            ;
        }
        let full = div_floor(twh, prod);
        proof {
            lemma_div_nonincreasing(twh as int, prod as int);
            lemma_div_pos_is_pos(twh as int, prod as int);
            assert(full as int * (len - prod) <= 200_000_000 * 1_000_000) by (nonlinear_arith)
                requires
                    0 <= full as int <= 200_000_000,
                    0 <= len - prod <= 1_000_000,
            ;
        }
        let paid_full = full * break_per_shift;

        let remaining = self.get_remaining_work_hours(&settings, prod, twh, full, len);
        let paid_remaining = if remaining == 0 {
            0
        } else {
            Self::calculate_break_in_fractional_hours(
                remaining,
                settings.meal_break,
                settings.non_meal_break,
            )
        };

        BasicCalculationResult {
            number_of_full_time_shifts: full as i32,
            remaining_work_hours: remaining + paid_remaining,
            work_hours_to_cover_breaks: paid_full + paid_remaining,
        }
    }

    /// The assignment's shift length capped at the configured maximum.
    fn get_shift_length(&self, settings: &PlannerSettings, shift_length: i64) -> (r: i64)
        requires
            settings.wf(),
            0 <= shift_length <= HOURS_LIMIT,
        ensures
            r == spec_effective_shift_length(*settings, shift_length as int),
            0 <= r <= HOURS_LIMIT,
    {
        if settings.max_shift_length > 0 && settings.max_shift_length < shift_length {
            settings.max_shift_length
        } else {
            shift_length
        }
    }

    /// The remainder after full shifts, zeroed below the rounding
    /// threshold, raised to the minimum shift length when configured, and
    /// snapped to the rounding period.
    fn get_remaining_work_hours(
        &self,
        settings: &PlannerSettings,
        productive: i64,
        total_work_hours: i64,
        full_time_shifts: i64,
        shift_length: i64,
    ) -> (r: i64)
        requires
            settings.wf(),
            1 <= productive <= HOURS_LIMIT,
            0 <= total_work_hours <= 200_000_000,
            0 <= shift_length <= HOURS_LIMIT,
            full_time_shifts == total_work_hours as int / productive as int,
        ensures
            r == spec_remaining_work_hours(
                *settings,
                productive as int,
                total_work_hours as int,
                full_time_shifts as int,
                shift_length as int,
            ),
            0 <= r <= BREAK_INPUT_LIMIT,
    {
        let mut remaining = mod_floor(total_work_hours, productive);
        proof {
            lemma_mod_division_less_than_divisor(total_work_hours as int, productive as int);
            lemma_remainder_lower(total_work_hours as int, productive as int);
        }
        let threshold = self.calculate_rounding_threshold_minutes(full_time_shifts, settings);
        let minutes = round_ratio(60 * remaining, 100);
        proof {
            crate::numbers::lemma_round_ratio_nonneg_le(60 * remaining as int, 100);
        }
        if minutes < threshold {
            remaining = 0;
        } else if remaining < settings.min_shift_length {
            remaining = if shift_length < settings.min_shift_length {
                shift_length
            } else {
                settings.min_shift_length
            };
        }
        self.round_remaining_hours_to_nearest_period(remaining, settings)
    }

    /// Snaps a remainder to the rounding period: a positive remainder
    /// under one period becomes one period; otherwise the nearest
    /// whole-period multiple, ties away from zero.
    fn round_remaining_hours_to_nearest_period(
        &self,
        remaining_hours: i64,
        settings: &PlannerSettings,
    ) -> (r: i64)
        requires
            settings.wf(),
            0 <= remaining_hours <= HOURS_LIMIT,
        ensures
            r == spec_round_to_period(remaining_hours as int, settings.period_length as int),
            0 <= r <= BREAK_INPUT_LIMIT,
    {
        let period = settings.period_length as i64;
        let minutes = round_ratio(60 * remaining_hours, 100);
        proof {
            crate::numbers::lemma_round_ratio_nonneg_le(60 * remaining_hours as int, 100);
            crate::numbers::lemma_round_ratio_upper(60 * remaining_hours as int, 100);
            assert(60 * remaining_hours as int / 100 <= 600_000) by (nonlinear_arith)
                requires
                    0 <= remaining_hours as int <= 1_000_000,
            ;
        }
        if minutes > 0 && minutes < period {
            let r = round_ratio(100 * period, 60);
            proof {
                crate::numbers::lemma_round_ratio_nonneg_le(100 * period as int, 60);
            }
            return r;
        }
        let full_periods = round_ratio(minutes, period);
        proof {
            crate::numbers::lemma_round_ratio_nonneg_le(minutes as int, period as int);
            assert(full_periods as int * period as int <= 600_001 * 100_000)
                by (nonlinear_arith)
                requires
                    0 <= full_periods as int <= 600_001,
                    0 <= period as int <= 100_000,
            ;
            assert(full_periods as int * period as int >= 0) by (nonlinear_arith)
                requires
                    0 <= full_periods as int,
                    0 <= period as int,
            ;
        }
        let r = round_ratio(100 * (full_periods * period), 60);
        proof {
            crate::numbers::lemma_round_ratio_nonneg_le(
                100 * (full_periods as int * period as int),
                60,
            );
            crate::numbers::lemma_round_ratio_upper(
                100 * (full_periods as int * period as int),
                60,
            );
        }
        r
    }

    /// The zero-out threshold in whole minutes for the given full-shift
    /// count.
    fn calculate_rounding_threshold_minutes(
        &self,
        full_time_shifts: i64,
        settings: &PlannerSettings,
    ) -> (r: i64)
        requires
            settings.wf(),
        ensures
            r == spec_threshold_minutes(*settings, full_time_shifts as int),
            0 <= r,
    {
        let fraction = if full_time_shifts < 1 {
            settings.rounding_threshold_below_one
        } else {
            settings.rounding_threshold_above_one
        };
        proof {
            assert(settings.period_length as int * fraction as int <= 100_000 * 1_000_000)
                by (nonlinear_arith)
                requires
                    0 <= settings.period_length <= 100_000,
                    0 <= fraction <= 1_000_000,
            ;
            assert(settings.period_length as int * fraction as int >= 0) by (nonlinear_arith)
                requires
                    0 <= settings.period_length,
                    0 <= fraction,
            ;
        }
        let r = div_floor((settings.period_length as i64) * fraction, 100);
        proof {
            lemma_div_pos_is_pos(settings.period_length as int * fraction as int, 100);
        }
        r
    }

    /// Paid break hours a shift of `shift_length` incurs, by the
    /// break-composition rule.
    fn calculate_break_in_fractional_hours(
        shift_length: i64,
        meal_break: Option<MealBreak>,
        non_meal_break: Option<NonMealBreak>,
    ) -> (r: i64)
        requires
            0 <= shift_length <= BREAK_INPUT_LIMIT,
            meal_break is Some ==> meal_break->0.wf(),
            non_meal_break is Some ==> non_meal_break->0.wf(),
            match (meal_break, non_meal_break) {
                (Some(m), Some(n)) => (m.break_length > 0 && n.break_length > 0)
                    ==> n.break_every >= 1,
                _ => true,
            },
        ensures
            r == spec_break_hours(shift_length as int, meal_break, non_meal_break),
            0 <= r <= shift_length + 3_000_000,
    {
        let (m, n) = match (meal_break, non_meal_break) {
            (Some(m), Some(n)) => (m, n),
            _ => {
                return 0;
            },
        };
        if m.break_length == 0 && n.break_length == 0 {
            return 0;
        }
        if m.break_length == 0 {
            return Self::calculate_break_given_only_non_meal_break(shift_length, &n);
        }
        if n.break_length == 0 {
            return Self::calculate_break_given_only_meal_break(shift_length, &m);
        }
        Self::calculate_break_given_both_break_types(shift_length, &m, &n)
    }

    /// Productive hours of a shift of `shift_length`, by the
    /// break-composition rule.
    fn calculate_productive_time_from_total_duration(
        shift_length: i64,
        meal_break: Option<MealBreak>,
        non_meal_break: Option<NonMealBreak>,
    ) -> (r: i64)
        requires
            0 <= shift_length <= BREAK_INPUT_LIMIT,
            meal_break is Some ==> meal_break->0.wf(),
            non_meal_break is Some ==> non_meal_break->0.wf(),
            match (meal_break, non_meal_break) {
                (Some(m), Some(n)) => (m.break_length > 0 && n.break_length > 0)
                    ==> n.break_every >= 1,
                _ => true,
            },
        ensures
            r == spec_productive_time(shift_length as int, meal_break, non_meal_break),
    {
        let (m, n) = match (meal_break, non_meal_break) {
            (Some(m), Some(n)) => (m, n),
            _ => {
                return shift_length;
            },
        };
        if m.break_length == 0 && n.break_length == 0 {
            return shift_length;
        }
        if n.break_length == 0 {
            return Self::calculate_productive_time_given_meal_break_only(shift_length, &m);
        }
        if m.break_length == 0 {
            return Self::calculate_productive_time_given_non_meal_break_only(shift_length, &n);
        }
        Self::calculate_productive_time_given_both_break_types(shift_length, &m, &n)
    }

    fn calculate_break_given_both_break_types(
        shift_length: i64,
        meal_break: &MealBreak,
        non_meal_break: &NonMealBreak,
    ) -> (r: i64)
        requires
            0 <= shift_length <= BREAK_INPUT_LIMIT,
            meal_break.wf(),
            non_meal_break.wf(),
            non_meal_break.break_every >= 1,
        ensures
            r == spec_break_both(shift_length as int, *meal_break, *non_meal_break),
            0 <= r,
    {
        if shift_length < non_meal_break.break_every {
            return 0;
        }
        if shift_length < meal_break.break_after {
            return non_meal_break.break_length;
        }
        if shift_length < Self::first_multiple_of_non_meal_break_after_meal_break(
            meal_break,
            non_meal_break,
        ) {
            return non_meal_break.break_length + meal_break.break_length;
        }
        non_meal_break.break_length * 2 + meal_break.break_length
    }

    fn calculate_break_given_only_meal_break(shift_length: i64, meal_break: &MealBreak) -> (r: i64)
        requires
            0 <= shift_length,
            meal_break.wf(),
        ensures
            r == spec_break_meal_only(shift_length as int, *meal_break),
            0 <= r,
    {
        if shift_length < meal_break.break_after {
            0
        } else {
            meal_break.break_length
        }
    }

    fn calculate_break_given_only_non_meal_break(
        shift_length: i64,
        non_meal_break: &NonMealBreak,
    ) -> (r: i64)
        requires
            0 <= shift_length <= BREAK_INPUT_LIMIT,
            non_meal_break.wf(),
            non_meal_break.break_length >= 1,
        ensures
            r == spec_break_non_meal_only(shift_length as int, *non_meal_break),
            0 <= r <= shift_length + 1_000_000,
    {
        if shift_length < non_meal_break.break_every {
            return 0;
        }
        let span = non_meal_break.break_every + non_meal_break.break_length;
        let extra = div_floor(shift_length - non_meal_break.break_every, span);
        proof {
            let gap = shift_length - non_meal_break.break_every as int;
            lemma_div_pos_is_pos(gap, span as int);
            lemma_fundamental_div_mod(gap, span as int);
            lemma_mod_division_less_than_divisor(gap, span as int);
            assert(extra as int * non_meal_break.break_length as int <= extra as int
                * span as int) by (nonlinear_arith)
                requires
                    0 <= extra as int,
                    0 <= non_meal_break.break_length as int <= span as int,
            ;
            assert(extra as int * span as int <= gap) by (nonlinear_arith)
                requires
                    extra as int == gap / span as int,
                    gap == span as int * (gap / span as int) + gap % span as int,
                    0 <= gap % span as int,
            ;
            assert((1 + extra as int) * non_meal_break.break_length as int
                == non_meal_break.break_length as int + extra as int
                * non_meal_break.break_length as int) by (nonlinear_arith);
        }
        (1 + extra) * non_meal_break.break_length
    }

    fn calculate_productive_time_given_both_break_types(
        shift_length: i64,
        meal_break: &MealBreak,
        non_meal_break: &NonMealBreak,
    ) -> (r: i64)
        requires
            0 <= shift_length <= BREAK_INPUT_LIMIT,
            meal_break.wf(),
            non_meal_break.wf(),
            non_meal_break.break_every >= 1,
        ensures
            r == spec_productive_both(shift_length as int, *meal_break, *non_meal_break),
    {
        let mut productive = shift_length;
        if productive >= non_meal_break.break_every + non_meal_break.break_length {
            productive = productive - non_meal_break.break_length;
        }
        if productive >= meal_break.break_after + meal_break.break_length {
            productive = productive - meal_break.break_length;
        }
        if productive >= Self::first_multiple_of_non_meal_break_after_meal_break(
            meal_break,
            non_meal_break,
        ) + non_meal_break.break_length {
            productive = productive - non_meal_break.break_length;
        }
        productive
    }

    fn calculate_productive_time_given_meal_break_only(
        shift_length: i64,
        meal_break: &MealBreak,
    ) -> (r: i64)
        requires
            0 <= shift_length,
            meal_break.wf(),
        ensures
            r == spec_productive_meal_only(shift_length as int, *meal_break),
    {
        if shift_length >= meal_break.break_after + meal_break.break_length {
            shift_length - meal_break.break_length
        } else {
            shift_length
        }
    }

    fn calculate_productive_time_given_non_meal_break_only(
        shift_length: i64,
        non_meal_break: &NonMealBreak,
    ) -> (r: i64)
        requires
            0 <= shift_length <= BREAK_INPUT_LIMIT,
            non_meal_break.wf(),
            non_meal_break.break_length >= 1,
        ensures
            r == spec_productive_non_meal_only(shift_length as int, *non_meal_break),
    {
        let span = non_meal_break.break_every + non_meal_break.break_length;
        let count = div_floor(shift_length, span);
        proof {
            lemma_div_pos_is_pos(shift_length as int, span as int);
            lemma_fundamental_div_mod(shift_length as int, span as int);
            lemma_mod_division_less_than_divisor(shift_length as int, span as int);
            assert(count as int * non_meal_break.break_length as int <= count as int
                * span as int) by (nonlinear_arith)
                requires
                    0 <= count as int,
                    0 <= non_meal_break.break_length as int <= span as int,
            ;
            assert(count as int * span as int <= shift_length as int) by (nonlinear_arith)
                requires
                    count as int == shift_length as int / span as int,
                    shift_length as int == span as int * (shift_length as int / span as int)
                        + shift_length as int % span as int,
                    0 <= shift_length as int % span as int,
            ;
            assert(count as int * non_meal_break.break_length as int >= 0) by (nonlinear_arith)
                requires
                    0 <= count as int,
                    0 <= non_meal_break.break_length as int,
            ;
        }
        shift_length - count * non_meal_break.break_length
    }

    /// The smallest multiple of the non-meal interval strictly beyond the
    /// meal break's threshold.
    fn first_multiple_of_non_meal_break_after_meal_break(
        meal_break: &MealBreak,
        non_meal_break: &NonMealBreak,
    ) -> (r: i64)
        requires
            meal_break.wf(),
            non_meal_break.break_every >= 1,
            non_meal_break.break_every <= HOURS_LIMIT,
        ensures
            r == spec_first_multiple_after(
                meal_break.break_after as int,
                non_meal_break.break_every as int,
            ),
            1 <= r <= meal_break.break_after + non_meal_break.break_every,
    {
        proof {
            lemma_first_multiple_bounds(
                meal_break.break_after as int,
                non_meal_break.break_every as int,
            );
        }
        let quotient = div_floor(meal_break.break_after, non_meal_break.break_every);
        proof {
            lemma_div_pos_is_pos(meal_break.break_after as int, non_meal_break.break_every as int);
            lemma_div_nonincreasing(
                meal_break.break_after as int,
                non_meal_break.break_every as int,
            );
        }
        non_meal_break.break_every * (quotient + 1)
    }
}

/// Zero demanded work yields zero full shifts and a zero remainder,
/// whenever the zero-out threshold is at least one minute. (With a zero
/// threshold and a positive minimum shift length, a zero remainder is
/// raised to the minimum shift like any other small remainder.)
pub proof fn lemma_zero_work_yields_zero(s: PlannerSettings, shift_length: int)
    requires
        s.wf(),
        0 <= shift_length,
        spec_productive_time(
            spec_effective_shift_length(s, shift_length),
            s.meal_break,
            s.non_meal_break,
        ) >= 1,
        spec_threshold_minutes(s, 0) >= 1,
    ensures
        ({
            let len = spec_effective_shift_length(s, shift_length);
            let prod = spec_productive_time(len, s.meal_break, s.non_meal_break);
            let twh = spec_total_work_hours(0);
            &&& twh / prod == 0
            &&& spec_remaining_work_hours(s, prod, twh, 0, len) == 0
        }),
{
    let len = spec_effective_shift_length(s, shift_length);
    let prod = spec_productive_time(len, s.meal_break, s.non_meal_break);
    lemma_fundamental_div_mod_converse(60, 120, 0, 60);
    assert(spec_total_work_hours(0) == 0);
    lemma_div_pos_is_pos(0, prod);
    lemma_div_nonincreasing(0, prod);
    lemma_mod_division_less_than_divisor(0, prod);
    lemma_remainder_lower(0, prod);
    assert(0int % prod == 0) by (nonlinear_arith)
        requires
            prod >= 1,
    ;
    lemma_fundamental_div_mod_converse(100, 200, 0, 100);
    assert(spec_minutes_of(0) == 0);
    assert(spec_remaining_before_period(s, prod, 0, 0, len) == 0);
    let period = s.period_length as int;
    lemma_fundamental_div_mod_converse(period, 2 * period, 0, period);
    assert(spec_round_ratio(0, period) == 0);
    assert(spec_round_ratio(100 * (0 * period), 60) == 0);
}

/// Productive time never exceeds the shift length, so the break hours per
/// full shift are non-negative.
pub proof fn lemma_productive_time_le(
    shift_length: int,
    meal: Option<MealBreak>,
    non_meal: Option<NonMealBreak>,
)
    requires
        0 <= shift_length,
        meal is Some ==> meal->0.wf(),
        non_meal is Some ==> non_meal->0.wf(),
    ensures
        spec_productive_time(shift_length, meal, non_meal) <= shift_length,
{
    match (meal, non_meal) {
        (Some(m), Some(n)) => {
            if m.break_length == 0 && n.break_length == 0 {
            } else if n.break_length == 0 {
            } else if m.break_length == 0 {
                lemma_div_pos_is_pos(shift_length, n.break_every + n.break_length);
                assert((shift_length / (n.break_every + n.break_length)) * n.break_length >= 0)
                    by (nonlinear_arith)
                    requires
                        shift_length / (n.break_every + n.break_length) >= 0,
                        n.break_length >= 0,
                ;
            } else {
            }
        },
        _ => {},
    }
}

} // verus!
