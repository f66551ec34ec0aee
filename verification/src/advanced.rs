//! The advanced work generator: distributes business-driver volumes over
//! the calendar through the per-unit and frequency calculators.
//!
//! An advanced (task) standard binds a shift under a standard set to a
//! business driver and either a frequency table or a per-unit definition.
//! For each effective planner date, each firing shift contributes the
//! minutes its standard computes from the driver's volume, converted to
//! hours at two decimals; the date's hours are the shifts' sum.

use crate::dates::{dow_of, Date};
use crate::frequency::{
    spec_frequency_minutes, Environment, FrequencyCalculator, TaskStandardDetail,
};
use crate::ids::{BusinessDriverId, JobId, JobShiftId, StandardSetId};
use crate::jobs::{
    lemma_first_definition_is_element, spec_first_definition, spec_shifts_for, Job, JobShift,
    JobShiftDefinition,
};
use crate::model::PlannerModel;
use crate::numbers::{round_ratio, spec_round_ratio, HOURS_LIMIT};
use crate::per_unit::{
    lemma_unit_work_minutes_bound, spec_unit_work_minutes, Units, WorkPerUnitCalculator,
    DRIVER_LIMIT, UNIT_MINUTES_LIMIT,
};
use crate::results::LaborData;
use crate::settings::spec_effective_dates;
use vstd::arithmetic::div_mod::{lemma_div_is_ordered, lemma_fundamental_div_mod_converse};
use vstd::prelude::*;

verus! {

/// Largest magnitude one shift can contribute to a date's advanced hours,
/// in hundredths of an hour.
pub const ADVANCED_SHIFT_HOURS_LIMIT: i64 = 40_000_000_000_000;

/// A per-unit advanced definition: the unit semantics and the standard
/// value, in hundredths.
#[derive(Debug, Clone, Copy, PartialEq, Eq, Structural)]
pub struct PerUnitStandard {
    pub units: Units,
    pub standard_value: i64,
}

impl PerUnitStandard {
    pub open spec fn wf(self) -> bool {
        -HOURS_LIMIT <= self.standard_value <= HOURS_LIMIT
    }
}

/// What an advanced standard computes with: a driver-volume-to-frequency
/// table, or a per-unit definition.
#[derive(Debug, Clone)]
pub enum AdvancedStandardKind {
    Frequency(TaskStandardDetail),
    PerUnit(PerUnitStandard),
}

impl AdvancedStandardKind {
    pub open spec fn wf(self) -> bool {
        match self {
            AdvancedStandardKind::Frequency(detail) => detail.wf(),
            AdvancedStandardKind::PerUnit(per_unit) => per_unit.wf(),
        }
    }
}

/// An advanced (task) standard for a (job, standard set, shift) triple:
/// the business driver whose volume scales the work, the environment the
/// frequency table is consulted for, and the definition itself.
#[derive(Debug, Clone)]
pub struct TaskStandard {
    pub job_id: JobId,
    pub standard_set_id: StandardSetId,
    pub shift: JobShift,
    pub business_driver_id: BusinessDriverId,
    pub environment: Environment,
    pub kind: AdvancedStandardKind,
}

impl TaskStandard {
    pub open spec fn wf(self) -> bool {
        self.kind.wf()
    }
}

/// The first advanced standard for a standard set and shift, in
/// declaration order.
pub open spec fn spec_first_task_standard(
    standards: Seq<TaskStandard>,
    standard_set_id: StandardSetId,
    shift_id: JobShiftId,
) -> Option<TaskStandard>
    decreases standards.len(),
{
    if standards.len() == 0 {
        None
    } else if standards[0].standard_set_id == standard_set_id && standards[0].shift.id
        == shift_id {
        Some(standards[0])
    } else {
        spec_first_task_standard(standards.drop_first(), standard_set_id, shift_id)
    }
}

/// A found advanced standard is always one of the declared ones.
pub proof fn lemma_first_task_standard_is_element(
    standards: Seq<TaskStandard>,
    standard_set_id: StandardSetId,
    shift_id: JobShiftId,
)
    ensures
        match spec_first_task_standard(standards, standard_set_id, shift_id) {
            Some(s) => exists|i: int| 0 <= i < standards.len() && standards[i] == s,
            None => true,
        },
    decreases standards.len(),
{
    if standards.len() != 0 {
        if standards[0].standard_set_id == standard_set_id && standards[0].shift.id == shift_id {
        } else {
            lemma_first_task_standard_is_element(standards.drop_first(), standard_set_id, shift_id);
            match spec_first_task_standard(standards.drop_first(), standard_set_id, shift_id) {
                Some(s) => {
                    let i = choose|i: int|
                        0 <= i < standards.drop_first().len() && standards.drop_first()[i] == s;
                    assert(standards[i + 1] == s);
                },
                None => {},
            }
        }
    }
}

/// Every element of a filtered shift sequence is one of the originals.
pub proof fn lemma_filtered_shifts_are_elements(shifts: Seq<JobShift>, pred: spec_fn(JobShift) -> bool)
    ensures
        forall|i: int|
            0 <= i < shifts.filter(pred).len() ==> exists|j: int|
                0 <= j < shifts.len() && shifts[j] == #[trigger] shifts.filter(pred)[i],
    decreases shifts.len(),
{
    reveal(Seq::filter);
    if shifts.len() > 0 {
        lemma_filtered_shifts_are_elements(shifts.drop_last(), pred);
        let out = shifts.filter(pred);
        let sub = shifts.drop_last().filter(pred);
        assert forall|i: int| 0 <= i < out.len() implies exists|j: int|
            0 <= j < shifts.len() && shifts[j] == #[trigger] out[i] by {
            if pred(shifts.last()) && i == out.len() - 1 {
                assert(shifts[shifts.len() - 1] == out[i]);
            } else {
                assert(out[i] == sub[i]);
                let j = choose|j: int|
                    0 <= j < shifts.drop_last().len() && shifts.drop_last()[j] == sub[i];
                assert(shifts[j] == out[i]);
            }
        }
    }
}

/// The length in hundredths of an hour of a shift definition's window.
pub open spec fn spec_shift_length_of(def: JobShiftDefinition) -> int {
    spec_round_ratio(100 * (def.end_minute - def.start_minute), 60)
}

/// The minutes (hundredths) an advanced standard computes for one firing
/// shift definition and one driver volume: the frequency table's match, or
/// the per-unit formula over the definition's window length. A soft
/// failure of either calculator contributes nothing.
pub open spec fn spec_task_minutes(
    standard: TaskStandard,
    def: JobShiftDefinition,
    volume: int,
) -> int {
    match standard.kind {
        AdvancedStandardKind::Frequency(detail) => match spec_frequency_minutes(
            detail,
            volume,
            standard.environment,
        ) {
            Some(minutes) => minutes,
            None => 0,
        },
        AdvancedStandardKind::PerUnit(per_unit) => {
            if per_unit.standard_value == 0 {
                0
            } else {
                spec_unit_work_minutes(
                    per_unit.units,
                    per_unit.standard_value as int,
                    volume,
                    spec_shift_length_of(def),
                )
            }
        },
    }
}

/// One shift's contribution to a date's advanced hours: its standard's
/// minutes for the driver's volume, converted to hours at two decimals,
/// when the shift fires on that date, a standard is declared for it, and
/// the driver has a volume; else zero.
pub open spec fn spec_shift_advanced_hours(
    shift: JobShift,
    task_standards: Seq<TaskStandard>,
    standard_set_id: StandardSetId,
    date: Date,
    driver_values: Map<u128, u32>,
) -> int {
    let dow = dow_of(date.year as int, date.month as int, date.day as int);
    match spec_first_definition(shift.shift_definitions@, dow) {
        None => 0,
        Some(def) => match spec_first_task_standard(task_standards, standard_set_id, shift.id) {
            None => 0,
            Some(standard) => {
                if driver_values.contains_key(standard.business_driver_id.bits) {
                    spec_round_ratio(
                        spec_task_minutes(
                            standard,
                            def,
                            driver_values[standard.business_driver_id.bits] as int,
                        ),
                        60,
                    )
                } else {
                    0
                }
            },
        },
    }
}

/// The sum of the shifts' contributions to a date's advanced hours.
pub open spec fn spec_shifts_advanced_sum(
    shifts: Seq<JobShift>,
    task_standards: Seq<TaskStandard>,
    standard_set_id: StandardSetId,
    date: Date,
    driver_values: Map<u128, u32>,
) -> int
    decreases shifts.len(),
{
    if shifts.len() == 0 {
        0
    } else {
        spec_shift_advanced_hours(shifts[0], task_standards, standard_set_id, date, driver_values)
            + spec_shifts_advanced_sum(
            shifts.drop_first(),
            task_standards,
            standard_set_id,
            date,
            driver_values,
        )
    }
}

/// A job's advanced hours for one date: the sum over its shifts under the
/// active standard set.
pub open spec fn spec_advanced_day_hours(
    job: Job,
    standard_set_id: StandardSetId,
    date: Date,
    driver_values: Map<u128, u32>,
) -> int {
    spec_shifts_advanced_sum(
        spec_shifts_for(job, standard_set_id),
        job.task_standards@,
        standard_set_id,
        date,
        driver_values,
    )
}

/// The advanced strategy's whole result for one job: one labor-data entry
/// per effective date, in date order, each carrying that date's summed
/// driver-derived hours; no planned shifts.
pub open spec fn spec_advanced_work_results(
    model: PlannerModel,
    job: Job,
    r: crate::generators::WorkResults,
) -> bool {
    let dates = spec_effective_dates(
        job.planner_settings.effective_dates,
        model.dates.start_date,
        model.dates.end_date,
    );
    &&& r.job_id == job.id
    &&& match r.payload {
        crate::generators::WorkPayload::Labor(labor) => {
            &&& labor@.len() == dates.len()
            &&& forall|i: int|
                0 <= i < dates.len() ==> {
                    &&& (#[trigger] labor@[i]).job_id == job.id
                    &&& labor@[i].date == dates[i]
                    &&& labor@[i].hours as int == spec_advanced_day_hours(
                        job,
                        model.standard_set_id,
                        dates[i],
                        model.business_driver_values@,
                    )
                }
        },
        crate::generators::WorkPayload::Shifts(_) => false,
    }
}

impl Job {
    /// The first advanced standard declared for the given standard set and
    /// shift, if any.
    pub fn task_standard_for_standard_set_and_shift(
        &self,
        standard_set_id: StandardSetId,
        shift: &JobShift,
    ) -> (r: Option<&TaskStandard>)
        ensures
            match r {
                Some(s) => Some(*s) == spec_first_task_standard(
                    self.task_standards@,
                    standard_set_id,
                    shift.id,
                ),
                None => spec_first_task_standard(self.task_standards@, standard_set_id, shift.id)
                    is None,
            },
    {
        let ghost all = self.task_standards@;
        let mut i: usize = 0;
        proof {
            assert(all.skip(0) =~= all);
        }
        while i < self.task_standards.len()
            invariant
                0 <= i <= all.len(),
                all == self.task_standards@,
                spec_first_task_standard(all, standard_set_id, shift.id)
                    == spec_first_task_standard(all.skip(i as int), standard_set_id, shift.id),
            decreases all.len() - i,
        {
            let ghost suffix = all.skip(i as int);
            assert(suffix.len() == all.len() - i);
            assert(suffix[0] == all[i as int]);
            let candidate = &self.task_standards[i];
            if candidate.standard_set_id.bits == standard_set_id.bits && candidate.shift.id.bits
                == shift.id.bits {
                assert(spec_first_task_standard(suffix, standard_set_id, shift.id) == Some(
                    suffix[0],
                ));
                return Some(candidate);
            }
            assert(suffix.drop_first() =~= all.skip(i as int + 1));
            i = i + 1;
        }
        assert(all.skip(i as int) =~= Seq::<TaskStandard>::empty());
        None
    }
}

/// The window length of a well-formed shift definition, in hundredths of
/// an hour: at most a week.
fn shift_length_hundredths(def: &JobShiftDefinition) -> (r: i64)
    requires
        def.wf(),
    ensures
        r == spec_shift_length_of(*def),
        0 <= r <= 16_801,
{
    let span: i64 = (def.end_minute as i64) - (def.start_minute as i64);
    let r = round_ratio(100 * span, 60);
    proof {
        crate::numbers::lemma_round_ratio_nonneg_le(100 * span as int, 60);
        crate::numbers::lemma_round_ratio_upper(100 * span as int, 60);
        lemma_div_is_ordered(100 * span as int, 1_008_000, 60);
        lemma_fundamental_div_mod_converse(1_008_000, 60, 16_800, 0);
    }
    r
}

/// The strategy for ADVANCED standards: per-date labor hours computed from
/// business-driver volumes through the per-unit and frequency calculators.
pub struct AdvancedWorkGenerator;

impl AdvancedWorkGenerator {
    pub fn new() -> Self {
        Self
    }

    /// One labor-data entry per effective planner date, each the sum of
    /// the job's per-shift advanced hours on that date.
    pub fn generate_work(&self, planner_model: &PlannerModel, job: &Job) -> (r:
        crate::generators::WorkResults)
        requires
            planner_model.wf(),
            job.wf(),
        ensures
            spec_advanced_work_results(*planner_model, *job, r),
    {
        let dates = job.planner_settings().dates(planner_model);
        let ghost dseq = spec_effective_dates(
            job.planner_settings.effective_dates,
            planner_model.dates.start_date,
            planner_model.dates.end_date,
        );
        let mut labor: Vec<LaborData> = Vec::new();
        let mut i: usize = 0;
        while i < dates.len()
            invariant
                planner_model.wf(),
                job.wf(),
                dates@ == dseq,
                forall|k: int| 0 <= k < dseq.len() ==> (#[trigger] dseq[k]).wf(),
                0 <= i <= dseq.len(),
                labor@.len() == i,
                forall|j: int|
                    0 <= j < i ==> {
                        &&& (#[trigger] labor@[j]).job_id == job.id
                        &&& labor@[j].date == dseq[j]
                        &&& labor@[j].hours as int == spec_advanced_day_hours(
                            *job,
                            planner_model.standard_set_id,
                            dseq[j],
                            planner_model.business_driver_values@,
                        )
                    },
            decreases dseq.len() - i,
        {
            let date = dates[i];
            let hours = self.calculate_work_for_all_shifts(planner_model, job, date);
            labor.push(LaborData::new(job.id(), date, hours));
            i = i + 1;
        }
        crate::generators::WorkResults::with_labor_data(job.id(), labor)
    }

    /// The sum over the job's shifts (under the active standard set) of
    /// the per-shift advanced hours for `date`.
    pub fn calculate_work_for_all_shifts(
        &self,
        planner_model: &PlannerModel,
        job: &Job,
        date: Date,
    ) -> (r: i64)
        requires
            planner_model.wf(),
            job.wf(),
            date.wf(),
        ensures
            r as int == spec_advanced_day_hours(
                *job,
                planner_model.standard_set_id,
                date,
                planner_model.business_driver_values@,
            ),
    {
        let shifts = job.shifts_for_standard_set(planner_model.standard_set_id());
        let ghost pred = |s: JobShift| s.standard_set_id == planner_model.standard_set_id;
        let ghost fseq = spec_shifts_for(*job, planner_model.standard_set_id);
        proof {
            job.shifts@.lemma_filter_len(pred);
            lemma_filtered_shifts_are_elements(job.shifts@, pred);
            assert forall|k: int| 0 <= k < fseq.len() implies (#[trigger] fseq[k]).wf() by {
                let j = choose|j: int| 0 <= j < job.shifts@.len() && job.shifts@[j] == fseq[k];
                assert(job.shifts@[j].wf());
            }
            assert(fseq.skip(0) =~= fseq);
        }
        let mut total: i64 = 0;
        let mut i: usize = 0;
        while i < shifts.len()
            invariant
                planner_model.wf(),
                job.wf(),
                date.wf(),
                shifts@.map_values(|s: &JobShift| *s) == fseq,
                fseq == spec_shifts_for(*job, planner_model.standard_set_id),
                fseq.len() <= 100_000,
                forall|k: int| 0 <= k < fseq.len() ==> (#[trigger] fseq[k]).wf(),
                0 <= i <= fseq.len(),
                -40_000_000_000_000 * (i as int) <= total as int <= 40_000_000_000_000 * (
                i as int),
                total as int + spec_shifts_advanced_sum(
                    fseq.skip(i as int),
                    job.task_standards@,
                    planner_model.standard_set_id,
                    date,
                    planner_model.business_driver_values@,
                ) == spec_shifts_advanced_sum(
                    fseq,
                    job.task_standards@,
                    planner_model.standard_set_id,
                    date,
                    planner_model.business_driver_values@,
                ),
            decreases fseq.len() - i,
        {
            let ghost suffix = fseq.skip(i as int);
            proof {
                assert(shifts@.map_values(|s: &JobShift| *s).len() == shifts@.len());
                assert(suffix.len() == fseq.len() - i);
                assert(suffix[0] == fseq[i as int]);
                assert(fseq[i as int] == shifts@.map_values(|s: &JobShift| *s)[i as int]);
                assert(suffix.drop_first() =~= fseq.skip(i as int + 1));
            }
            let shift: &JobShift = shifts[i];
            let hours = self.calculate_work_for_shift(planner_model, job, shift, date);
            total = total + hours;
            i = i + 1;
        }
        proof {
            assert(fseq.skip(i as int) =~= Seq::<JobShift>::empty());
        }
        total
    }

    /// One shift's advanced hours for `date`: zero unless the shift fires
    /// on the date, an advanced standard is declared for it, and its
    /// business driver has a volume.
    pub fn calculate_work_for_shift(
        &self,
        planner_model: &PlannerModel,
        job: &Job,
        shift: &JobShift,
        date: Date,
    ) -> (r: i64)
        requires
            planner_model.wf(),
            job.wf(),
            shift.wf(),
            date.wf(),
        ensures
            r as int == spec_shift_advanced_hours(
                *shift,
                job.task_standards@,
                planner_model.standard_set_id,
                date,
                planner_model.business_driver_values@,
            ),
            -ADVANCED_SHIFT_HOURS_LIMIT <= r <= ADVANCED_SHIFT_HOURS_LIMIT,
    {
        let def: JobShiftDefinition = match shift.shift_detail_for_date(date) {
            Some(d) => *d,
            None => {
                return 0;
            },
        };
        proof {
            lemma_first_definition_is_element(
                shift.shift_definitions@,
                dow_of(date.year as int, date.month as int, date.day as int),
            );
        }
        let standard: &TaskStandard = match job.task_standard_for_standard_set_and_shift(
            planner_model.standard_set_id(),
            shift,
        ) {
            Some(s) => s,
            None => {
                return 0;
            },
        };
        proof {
            lemma_first_task_standard_is_element(
                job.task_standards@,
                planner_model.standard_set_id,
                shift.id,
            );
        }
        let volume: u32 = match planner_model.business_driver_values.get(
            &standard.business_driver_id.bits,
        ) {
            Some(v) => *v,
            None => {
                return 0;
            },
        };
        let minutes: i64 = match &standard.kind {
            AdvancedStandardKind::Frequency(detail) => {
                match FrequencyCalculator::new().calculate_frequency_minutes(
                    detail,
                    volume as i32,
                    standard.environment,
                ) {
                    Some(outcome) => outcome.work_in_minutes,
                    None => 0,
                }
            },
            AdvancedStandardKind::PerUnit(per_unit) => {
                let length = shift_length_hundredths(&def);
                match WorkPerUnitCalculator::new().calculate(
                    per_unit.units,
                    per_unit.standard_value,
                    volume as i32,
                    length,
                ) {
                    Some(outcome) => {
                        proof {
                            lemma_unit_work_minutes_bound(
                                per_unit.units,
                                per_unit.standard_value as int,
                                volume as int,
                                length as int,
                            );
                        }
                        outcome.work_in_minutes
                    },
                    None => 0,
                }
            },
        };
        let hours = round_ratio(minutes, 60);
        proof {
            crate::numbers::lemma_round_ratio_div_bound(minutes as int, 60);
            let magnitude = if minutes >= 0 {
                minutes as int
            } else {
                -(minutes as int)
            };
            lemma_div_is_ordered(magnitude, UNIT_MINUTES_LIMIT as int, 60);
            lemma_fundamental_div_mod_converse(
                2_000_000_000_000_000,
                60,
                33_333_333_333_333,
                20,
            );
        }
        hours
    }
}

} // verus!
