//! The salaried calculator and its work generator: distributes a salaried
//! standard's hours over the calendar, weekly or monthly.

use crate::dates::{dow_of, spec_month_length, Date, day_of_week_value, month_length, SUNDAY};
use crate::ids::StandardSetId;
use crate::jobs::{
    spec_first_definition, spec_first_standard, spec_shifts_for, Job, JobShift, SalariedStandard,
};
use crate::model::PlannerModel;
use crate::numbers::{
    lemma_round_ratio_magnitude, round_ratio, spec_round_ratio,
};
use crate::results::LaborData;
use crate::settings::spec_effective_dates;
use vstd::prelude::*;

verus! {

/// Largest magnitude a single salaried day's hours can take, in hundredths
/// of an hour, given numerically valid standards.
pub const SALARIED_DAY_LIMIT: i64 = 20_000_000_000;

/// One date's required hours for a salaried standard, in hundredths of an
/// hour. `month_len` is the length of the date's month and `dow` its day
/// of the week, 1 Monday through 7 Sunday.
///
/// Monthly mode spreads the yearly hours evenly over the month's days.
/// Weekly mode takes the yearly hours net of vacation, gives each of
/// Monday through Saturday a rounded seventh of a week, and gives Sunday
/// the week's remainder.
pub open spec fn spec_salaried_hours(
    standard: SalariedStandard,
    month_len: int,
    dow: int,
) -> int {
    match standard.salary_mode {
        crate::settings::SalaryMode::MONTHLY => spec_round_ratio(
            standard.hours_per_year as int,
            12 * month_len,
        ),
        crate::settings::SalaryMode::WEEKLY => {
            let adjusted_year = 52 * standard.hours_per_week
                - standard.vacation_hours_per_year;
            let mon_sat = spec_round_ratio(adjusted_year, 364);
            if dow == 7 {
                spec_round_ratio(adjusted_year - 312 * mon_sat, 52)
            } else {
                mon_sat
            }
        },
    }
}

/// A valid standard's daily hours stay within `SALARIED_DAY_LIMIT`.
pub proof fn lemma_salaried_hours_bound(standard: SalariedStandard, month_len: int, dow: int)
    requires
        standard.wf(),
        28 <= month_len <= 31,
    ensures
        -SALARIED_DAY_LIMIT <= spec_salaried_hours(standard, month_len, dow)
            <= SALARIED_DAY_LIMIT,
{
    match standard.salary_mode {
        crate::settings::SalaryMode::MONTHLY => {
            lemma_round_ratio_magnitude(standard.hours_per_year as int, 12 * month_len);
        },
        crate::settings::SalaryMode::WEEKLY => {
            let adjusted_year = 52 * standard.hours_per_week
                - standard.vacation_hours_per_year;
            lemma_round_ratio_magnitude(adjusted_year, 364);
            let mon_sat = spec_round_ratio(adjusted_year, 364);
            lemma_round_ratio_magnitude(adjusted_year - 312 * mon_sat, 52);
        },
    }
}

/// Monthly-mode hours do not depend on the day of the week: every day of a
/// month gets the same allocation.
pub proof fn lemma_monthly_hours_day_independent(
    standard: SalariedStandard,
    month_len: int,
    dow_a: int,
    dow_b: int,
)
    requires
        standard.salary_mode == crate::settings::SalaryMode::MONTHLY,
    ensures
        spec_salaried_hours(standard, month_len, dow_a) == spec_salaried_hours(
            standard,
            month_len,
            dow_b,
        ),
{
}

/// A monthly-allocated standard yields the same hours on every day of one
/// month, whatever their days of the week.
pub proof fn lemma_monthly_hours_constant_across_month(
    standard: SalariedStandard,
    day_a: Date,
    day_b: Date,
)
    requires
        standard.salary_mode == crate::settings::SalaryMode::MONTHLY,
        day_a.year == day_b.year,
        day_a.month == day_b.month,
    ensures
        spec_salaried_hours(
            standard,
            spec_month_length(day_a.year as int, day_a.month as int),
            dow_of(day_a.year as int, day_a.month as int, day_a.day as int),
        ) == spec_salaried_hours(
            standard,
            spec_month_length(day_b.year as int, day_b.month as int),
            dow_of(day_b.year as int, day_b.month as int, day_b.day as int),
        ),
{
}

pub struct SalariedCalculator;

impl SalariedCalculator {
    pub fn new() -> Self {
        Self
    }

    /// One date's hours for a salaried standard, given the date's month
    /// length and day of the week.
    pub fn hours_for_day(
        &self,
        standard: &SalariedStandard,
        month_len: i32,
        day_of_week: i32,
    ) -> (r: i64)
        requires
            standard.wf(),
            28 <= month_len <= 31,
        ensures
            r == spec_salaried_hours(*standard, month_len as int, day_of_week as int),
            -SALARIED_DAY_LIMIT <= r <= SALARIED_DAY_LIMIT,
    {
        proof {
            lemma_salaried_hours_bound(*standard, month_len as int, day_of_week as int);
        }
        match standard.salary_mode {
            crate::settings::SalaryMode::MONTHLY => {
                round_ratio(standard.hours_per_year, 12 * (month_len as i64))
            },
            crate::settings::SalaryMode::WEEKLY => {
                let adjusted_year = 52 * standard.hours_per_week
                    - standard.vacation_hours_per_year;
                let mon_sat = round_ratio(adjusted_year, 364);
                proof {
                    lemma_round_ratio_magnitude(adjusted_year as int, 364);
                }
                if day_of_week == SUNDAY {
                    round_ratio(adjusted_year - 312 * mon_sat, 52)
                } else {
                    mon_sat
                }
            },
        }
    }

    /// One date's hours for a salaried standard: monthly mode divides the
    /// yearly hours by twelve months and the month's days; weekly mode
    /// distributes the week with a differentiated Sunday rate.
    pub fn calculate_hours(&self, standard: &SalariedStandard, date: Date) -> (r: i64)
        requires
            standard.wf(),
            date.wf(),
        ensures
            r == spec_salaried_hours(
                *standard,
                spec_month_length(date.year as int, date.month as int),
                dow_of(date.year as int, date.month as int, date.day as int),
            ),
            -SALARIED_DAY_LIMIT <= r <= SALARIED_DAY_LIMIT,
    {
        let month_len = month_length(date.year, date.month);
        let dow = day_of_week_value(date);
        self.hours_for_day(standard, month_len, dow)
    }
}

/// One shift's contribution to a date's salaried hours: its standard's
/// daily hours when the shift fires on that date and a standard is
/// declared for it, else zero.
pub open spec fn spec_shift_salaried_hours(
    shift: JobShift,
    standards: Seq<SalariedStandard>,
    standard_set_id: StandardSetId,
    date: Date,
) -> int {
    let dow = dow_of(date.year as int, date.month as int, date.day as int);
    if spec_first_definition(shift.shift_definitions@, dow) is Some {
        match spec_first_standard(standards, standard_set_id, shift.id) {
            Some(standard) => spec_salaried_hours(
                standard,
                spec_month_length(date.year as int, date.month as int),
                dow,
            ),
            None => 0,
        }
    } else {
        0
    }
}

/// The sum of the shifts' contributions to a date's salaried hours.
pub open spec fn spec_shifts_salaried_sum(
    shifts: Seq<JobShift>,
    standards: Seq<SalariedStandard>,
    standard_set_id: StandardSetId,
    date: Date,
) -> int
    decreases shifts.len(),
{
    if shifts.len() == 0 {
        0
    } else {
        spec_shift_salaried_hours(shifts[0], standards, standard_set_id, date)
            + spec_shifts_salaried_sum(shifts.drop_first(), standards, standard_set_id, date)
    }
}

/// A job's salaried hours for one date: the sum over its shifts under the
/// active standard set.
pub open spec fn spec_job_day_hours(job: Job, standard_set_id: StandardSetId, date: Date) -> int {
    spec_shifts_salaried_sum(
        spec_shifts_for(job, standard_set_id),
        job.salaried_standards@,
        standard_set_id,
        date,
    )
}

/// The salaried strategy's whole result for one job: one labor-data entry
/// per effective date, in date order, each carrying that date's summed
/// hours; no planned shifts.
pub open spec fn spec_salaried_work_results(
    model: PlannerModel,
    job: Job,
    r: crate::generators::WorkResults,
) -> bool {
    let dates = spec_effective_dates(
        job.planner_settings.effective_dates,
        model.dates.start_date,
        model.dates.end_date,
    );
    &&& r.job_id == job.id
    &&& match r.payload {
        crate::generators::WorkPayload::Labor(labor) => {
            &&& labor@.len() == dates.len()
            &&& forall|i: int|
                0 <= i < dates.len() ==> {
                    &&& (#[trigger] labor@[i]).job_id == job.id
                    &&& labor@[i].date == dates[i]
                    &&& labor@[i].hours as int == spec_job_day_hours(
                        job,
                        model.standard_set_id,
                        dates[i],
                    )
                }
        },
        crate::generators::WorkPayload::Shifts(_) => false,
    }
}

pub struct SalariedWorkGenerator;

impl SalariedWorkGenerator {
    pub fn new() -> Self {
        Self
    }

    /// One labor-data entry per effective planner date, each the sum of
    /// the job's per-shift salaried hours on that date.
    pub fn generate_work(&self, planner_model: &PlannerModel, job: &Job) -> (r:
        crate::generators::WorkResults)
        requires
            planner_model.wf(),
            job.wf(),
        ensures
            spec_salaried_work_results(*planner_model, *job, r),
    {
        let dates = job.planner_settings().dates(planner_model);
        let ghost dseq = spec_effective_dates(
            job.planner_settings.effective_dates,
            planner_model.dates.start_date,
            planner_model.dates.end_date,
        );
        let mut labor: Vec<LaborData> = Vec::new();
        let mut i: usize = 0;
        while i < dates.len()
            invariant
                planner_model.wf(),
                job.wf(),
                dates@ == dseq,
                forall|k: int| 0 <= k < dseq.len() ==> (#[trigger] dseq[k]).wf(),
                0 <= i <= dseq.len(),
                labor@.len() == i,
                forall|j: int|
                    0 <= j < i ==> {
                        &&& (#[trigger] labor@[j]).job_id == job.id
                        &&& labor@[j].date == dseq[j]
                        &&& labor@[j].hours as int == spec_job_day_hours(
                            *job,
                            planner_model.standard_set_id,
                            dseq[j],
                        )
                    },
            decreases dseq.len() - i,
        {
            let date = dates[i];
            let hours = self.calculate_work_for_all_shifts(planner_model, job, date);
            labor.push(LaborData::new(job.id(), date, hours));
            i = i + 1;
        }
        crate::generators::WorkResults::with_labor_data(job.id(), labor)
    }

    /// The sum over the job's shifts (under the active standard set) of
    /// the per-shift salaried hours for `date`.
    pub fn calculate_work_for_all_shifts(
        &self,
        planner_model: &PlannerModel,
        job: &Job,
        date: Date,
    ) -> (r: i64)
        requires
            job.wf(),
            date.wf(),
        ensures
            r as int == spec_job_day_hours(*job, planner_model.standard_set_id, date),
    {
        let shifts = job.shifts_for_standard_set(planner_model.standard_set_id());
        let ghost fseq = spec_shifts_for(*job, planner_model.standard_set_id);
        proof {
            job.shifts@.lemma_filter_len(
                |s: JobShift| s.standard_set_id == planner_model.standard_set_id,
            );
            assert(fseq.len() <= job.shifts@.len());
        }
        let mut total: i64 = 0;
        let mut i: usize = 0;
        proof {
            assert(fseq.skip(0) =~= fseq);
        }
        while i < shifts.len()
            invariant
                job.wf(),
                date.wf(),
                shifts@.map_values(|s: &JobShift| *s) == fseq,
                fseq == spec_shifts_for(*job, planner_model.standard_set_id),
                fseq.len() <= 100_000,
                0 <= i <= fseq.len(),
                -20_000_000_000 * (i as int) <= total as int <= 20_000_000_000 * (i as int),
                total as int + spec_shifts_salaried_sum(
                    fseq.skip(i as int),
                    job.salaried_standards@,
                    planner_model.standard_set_id,
                    date,
                ) == spec_shifts_salaried_sum(
                    fseq,
                    job.salaried_standards@,
                    planner_model.standard_set_id,
                    date,
                ),
            decreases fseq.len() - i,
        {
            let ghost suffix = fseq.skip(i as int);
            proof {
                assert(shifts@.map_values(|s: &JobShift| *s).len() == shifts@.len());
                assert(suffix.len() == fseq.len() - i);
                assert(suffix[0] == fseq[i as int]);
                assert(fseq[i as int] == shifts@.map_values(|s: &JobShift| *s)[i as int]);
                assert(suffix.drop_first() =~= fseq.skip(i as int + 1));
            }
            let shift: &JobShift = shifts[i];
            let hours = self.calculate_work_for_shift(planner_model, job, shift, date);
            total = total + hours;
            i = i + 1;
        }
        proof {
            assert(fseq.skip(i as int) =~= Seq::<JobShift>::empty());
        }
        total
    }

    /// One shift's salaried hours for `date`: zero unless the shift has a
    /// definition for the date's day of the week.
    pub fn calculate_work_for_shift(
        &self,
        planner_model: &PlannerModel,
        job: &Job,
        shift: &JobShift,
        date: Date,
    ) -> (r: i64)
        requires
            job.wf(),
            date.wf(),
        ensures
            r as int == spec_shift_salaried_hours(
                *shift,
                job.salaried_standards@,
                planner_model.standard_set_id,
                date,
            ),
            -SALARIED_DAY_LIMIT <= r <= SALARIED_DAY_LIMIT,
    {
        let detail = shift.shift_detail_for_date(date);
        if detail.is_some() {
            self.calc_work_for_shift_detail(planner_model, job, shift, date)
        } else {
            0
        }
    }

    /// The declared standard's daily hours for `date`, zero when no
    /// standard is declared for the shift under the active standard set.
    fn calc_work_for_shift_detail(
        &self,
        planner_model: &PlannerModel,
        job: &Job,
        shift: &JobShift,
        date: Date,
    ) -> (r: i64)
        requires
            job.wf(),
            date.wf(),
        ensures
            r as int == match spec_first_standard(
                job.salaried_standards@,
                planner_model.standard_set_id,
                shift.id,
            ) {
                Some(standard) => spec_salaried_hours(
                    standard,
                    spec_month_length(date.year as int, date.month as int),
                    dow_of(date.year as int, date.month as int, date.day as int),
                ),
                None => 0,
            },
            -SALARIED_DAY_LIMIT <= r <= SALARIED_DAY_LIMIT,
    {
        let standard = job.salaried_standard_for_standard_set_and_shift(
            planner_model.standard_set_id(),
            shift,
        );
        match standard {
            Some(standard) => {
                proof {
                    crate::jobs::lemma_first_standard_is_element(
                        job.salaried_standards@,
                        planner_model.standard_set_id,
                        shift.id,
                    );
                }
                SalariedCalculator::new().calculate_hours(standard, date)
            },
            None => 0,
        }
    }
}

/// Processes a job's salaried standards into per-date labor data; the
/// salaried strategy behind the dispatcher.
pub struct SalariedStandardsProcessorImpl;

impl SalariedStandardsProcessorImpl {
    pub fn new() -> Self {
        Self
    }

    /// One labor-data entry per effective planner date; see
    /// `SalariedWorkGenerator::generate_work`.
    pub fn process(&self, planner_model: &PlannerModel, job: &Job) -> (r:
        crate::generators::WorkResults)
        requires
            planner_model.wf(),
            job.wf(),
        ensures
            spec_salaried_work_results(*planner_model, *job, r),
    {
        SalariedWorkGenerator::new().generate_work(planner_model, job)
    }
}

} // verus!
