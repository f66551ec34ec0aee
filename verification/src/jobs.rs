//! Jobs, their shift patterns, and their salaried standards.

use crate::advanced::TaskStandard;
use crate::dates::{day_of_week_value, dow_of, Date};
use crate::ids::{JobId, JobShiftId, LocationId, StandardSetId};
use crate::numbers::HOURS_LIMIT;
use crate::settings::{PlannerSettings, SalaryMode};
use vstd::prelude::*;

verus! {

/// A shift pattern's window on one day of the week. Only `day_of_week`
/// (1 is Monday through 7 is Sunday) drives the calculators; the times are
/// minutes of the day and the buffers hundredths of an hour.
#[derive(Debug, Clone, Copy, PartialEq, Eq, Structural)]
pub struct JobShiftDefinition {
    pub day_of_week: i32,
    pub start_minute: u32,
    pub end_minute: u32,
    pub hours_before: i64,
    pub hours_after: i64,
    pub min_number_shifts: u32,
}

impl JobShiftDefinition {
    /// A window whose end does not precede its start and stays within a
    /// week of minutes, so lengths derived from it are bounded.
    pub open spec fn wf(self) -> bool {
        self.start_minute <= self.end_minute <= 10_080
    }

    pub fn new(
        day_of_week: i32,
        start_minute: u32,
        end_minute: u32,
        hours_before: i64,
        hours_after: i64,
        min_number_shifts: u32,
    ) -> (r: JobShiftDefinition)
        ensures
            r == (JobShiftDefinition {
                day_of_week,
                start_minute,
                end_minute,
                hours_before,
                hours_after,
                min_number_shifts,
            }),
    {
        JobShiftDefinition {
            day_of_week,
            start_minute,
            end_minute,
            hours_before,
            hours_after,
            min_number_shifts,
        }
    }
}

/// The first shift definition for a given day of the week, in declaration
/// order.
pub open spec fn spec_first_definition(defs: Seq<JobShiftDefinition>, dow: int) -> Option<
    JobShiftDefinition,
>
    decreases defs.len(),
{
    if defs.len() == 0 {
        None
    } else if defs[0].day_of_week == dow {
        Some(defs[0])
    } else {
        spec_first_definition(defs.drop_first(), dow)
    }
}

/// A found definition is always one of the declared ones.
pub proof fn lemma_first_definition_is_element(defs: Seq<JobShiftDefinition>, dow: int)
    ensures
        match spec_first_definition(defs, dow) {
            Some(d) => exists|i: int| 0 <= i < defs.len() && defs[i] == d,
            None => true,
        },
    decreases defs.len(),
{
    if defs.len() != 0 {
        if defs[0].day_of_week == dow {
            assert(defs[0] == spec_first_definition(defs, dow)->0);
        } else {
            lemma_first_definition_is_element(defs.drop_first(), dow);
            match spec_first_definition(defs.drop_first(), dow) {
                Some(d) => {
                    let i = choose|i: int|
                        0 <= i < defs.drop_first().len() && defs.drop_first()[i] == d;
                    assert(defs[i + 1] == d);
                },
                None => {},
            }
        }
    }
}

/// A named shift pattern under a standard set, with one definition per
/// active day of the week.
#[derive(Debug, Clone)]
pub struct JobShift {
    pub id: JobShiftId,
    pub job_id: JobId,
    pub standard_set_id: StandardSetId,
    pub name: String,
    pub sequence: u32,
    pub shift_definitions: Vec<JobShiftDefinition>,
}

impl JobShift {
    /// Every definition window is well formed.
    pub open spec fn wf(self) -> bool {
        forall|i: int|
            0 <= i < self.shift_definitions@.len() ==> (#[trigger] self.shift_definitions@[i]).wf()
    }

    pub fn new(
        job_id: JobId,
        standard_set_id: StandardSetId,
        name: String,
        sequence: u32,
        shift_definitions: Vec<JobShiftDefinition>,
    ) -> (r: JobShift)
        ensures
            r.job_id == job_id,
            r.standard_set_id == standard_set_id,
            r.name == name,
            r.sequence == sequence,
            r.shift_definitions == shift_definitions,
    {
        JobShift { id: JobShiftId::new(), job_id, standard_set_id, name, sequence, shift_definitions }
    }

    /// A shift with no definitions, for exercising the generators.
    pub fn test() -> (r: JobShift)
        ensures
            r.shift_definitions@.len() == 0,
            r.sequence == 0,
    {
        JobShift {
            id: JobShiftId::new(),
            job_id: JobId::new(),
            standard_set_id: StandardSetId::new(),
            name: String::new(),
            sequence: 0,
            shift_definitions: Vec::new(),
        }
    }

    pub fn id(&self) -> (r: &JobShiftId)
        ensures
            *r == self.id,
    {
        &self.id
    }

    pub fn standard_set_id(&self) -> (r: &StandardSetId)
        ensures
            *r == self.standard_set_id,
    {
        &self.standard_set_id
    }

    /// The first definition whose day of the week is `date`'s, if any: the
    /// shift fires on `date` exactly when one exists.
    pub fn shift_detail_for_date(&self, date: Date) -> (r: Option<&JobShiftDefinition>)
        requires
            date.wf(),
        ensures
            match r {
                Some(d) => Some(*d) == spec_first_definition(
                    self.shift_definitions@,
                    dow_of(date.year as int, date.month as int, date.day as int),
                ),
                None => spec_first_definition(
                    self.shift_definitions@,
                    dow_of(date.year as int, date.month as int, date.day as int),
                ) is None,
            },
    {
        let dow = day_of_week_value(date);
        let ghost all = self.shift_definitions@;
        let mut i: usize = 0;
        proof {
            assert(all.skip(0) =~= all);
        }
        while i < self.shift_definitions.len()
            invariant
                0 <= i <= all.len(),
                all == self.shift_definitions@,
                dow == dow_of(date.year as int, date.month as int, date.day as int),
                spec_first_definition(all, dow as int) == spec_first_definition(
                    all.skip(i as int),
                    dow as int,
                ),
            decreases all.len() - i,
        {
            let ghost suffix = all.skip(i as int);
            assert(suffix.len() == all.len() - i);
            assert(suffix[0] == all[i as int]);
            if self.shift_definitions[i].day_of_week == dow {
                assert(spec_first_definition(suffix, dow as int) == Some(suffix[0]));
                return Some(&self.shift_definitions[i]);
            }
            assert(suffix.drop_first() =~= all.skip(i as int + 1));
            i = i + 1;
        }
        assert(all.skip(i as int) =~= Seq::<JobShiftDefinition>::empty());
        None
    }
}

/// A salary-based hour-allocation rule for a (job, standard set, shift)
/// triple. Hour fields are hundredths of an hour.
#[derive(Debug, Clone)]
pub struct SalariedStandard {
    pub job_id: JobId,
    pub standard_set_id: StandardSetId,
    pub shift: JobShift,
    pub salary_mode: SalaryMode,
    pub hours_per_week: i64,
    pub vacation_hours_per_year: i64,
    pub hours_per_year: i64,
}

impl SalariedStandard {
    pub open spec fn wf(self) -> bool {
        &&& 0 <= self.hours_per_week <= HOURS_LIMIT
        &&& 0 <= self.vacation_hours_per_year <= HOURS_LIMIT
        &&& 0 <= self.hours_per_year <= HOURS_LIMIT
    }
}

/// The first salaried standard for a standard set and shift, in
/// declaration order.
pub open spec fn spec_first_standard(
    standards: Seq<SalariedStandard>,
    standard_set_id: StandardSetId,
    shift_id: JobShiftId,
) -> Option<SalariedStandard>
    decreases standards.len(),
{
    if standards.len() == 0 {
        None
    } else if standards[0].standard_set_id == standard_set_id && standards[0].shift.id
        == shift_id {
        Some(standards[0])
    } else {
        spec_first_standard(standards.drop_first(), standard_set_id, shift_id)
    }
}

/// A standard's position in declaration order is what the lookup above
/// respects; a found standard is always one of the declared ones.
pub proof fn lemma_first_standard_is_element(
    standards: Seq<SalariedStandard>,
    standard_set_id: StandardSetId,
    shift_id: JobShiftId,
)
    ensures
        match spec_first_standard(standards, standard_set_id, shift_id) {
            Some(s) => exists|i: int| 0 <= i < standards.len() && standards[i] == s,
            None => true,
        },
    decreases standards.len(),
{
    if standards.len() != 0 {
        if standards[0].standard_set_id == standard_set_id && standards[0].shift.id == shift_id {
        } else {
            lemma_first_standard_is_element(standards.drop_first(), standard_set_id, shift_id);
            match spec_first_standard(standards.drop_first(), standard_set_id, shift_id) {
                Some(s) => {
                    let i = choose|i: int|
                        0 <= i < standards.drop_first().len() && standards.drop_first()[i] == s;
                    assert(standards[i + 1] == s);
                },
                None => {},
            }
        }
    }
}

/// The job's shifts declared under a standard set, in declaration order.
pub open spec fn spec_shifts_for(job: Job, standard_set_id: StandardSetId) -> Seq<JobShift> {
    job.shifts@.filter(|s: JobShift| s.standard_set_id == standard_set_id)
}

/// A schedulable role: its settings, shift patterns, and salaried
/// standards.
#[derive(Debug, Clone)]
pub struct Job {
    pub id: JobId,
    pub property_id: LocationId,
    pub planner_settings: PlannerSettings,
    pub shifts: Vec<JobShift>,
    pub salaried_standards: Vec<SalariedStandard>,
    pub task_standards: Vec<TaskStandard>,
}

impl Job {
    /// A job the generators can process: valid settings, bounded shift
    /// count, well-formed shift windows, and numerically valid standards.
    pub open spec fn wf(self) -> bool {
        &&& self.planner_settings.wf()
        &&& self.shifts@.len() <= 100_000
        &&& forall|i: int| 0 <= i < self.shifts@.len() ==> (#[trigger] self.shifts@[i]).wf()
        &&& forall|i: int|
            0 <= i < self.salaried_standards@.len() ==> (
            #[trigger] self.salaried_standards@[i]).wf()
        &&& forall|i: int|
            0 <= i < self.task_standards@.len() ==> (#[trigger] self.task_standards@[i]).wf()
    }

    pub fn new(
        property_id: LocationId,
        planner_settings: PlannerSettings,
        shifts: Vec<JobShift>,
        salaried_standards: Vec<SalariedStandard>,
    ) -> (r: Job)
        ensures
            r.property_id == property_id,
            r.planner_settings == planner_settings,
            r.shifts == shifts,
            r.salaried_standards == salaried_standards,
            r.task_standards@.len() == 0,
    {
        Job {
            id: JobId::new(),
            property_id,
            planner_settings,
            shifts,
            salaried_standards,
            task_standards: Vec::new(),
        }
    }

    /// The same job with the given advanced standards attached.
    pub fn with_task_standards(self, task_standards: Vec<TaskStandard>) -> (r: Job)
        ensures
            r == (Job { task_standards, ..self }),
    {
        Job {
            id: self.id,
            property_id: self.property_id,
            planner_settings: self.planner_settings,
            shifts: self.shifts,
            salaried_standards: self.salaried_standards,
            task_standards,
        }
    }

    pub fn task_standards(&self) -> (r: &Vec<TaskStandard>)
        ensures
            r == &self.task_standards,
    {
        &self.task_standards
    }

    /// A job with default settings and no shifts or standards.
    pub fn test() -> (r: Job)
        ensures
            r.planner_settings == crate::settings::spec_default_settings(),
            r.shifts@.len() == 0,
            r.salaried_standards@.len() == 0,
            r.task_standards@.len() == 0,
            r.wf(),
    {
        Job {
            id: JobId::new(),
            property_id: LocationId::new(),
            planner_settings: PlannerSettings::default(),
            shifts: Vec::new(),
            salaried_standards: Vec::new(),
            task_standards: Vec::new(),
        }
    }

    pub fn id(&self) -> (r: JobId)
        ensures
            r == self.id,
    {
        self.id
    }

    pub fn planner_settings(&self) -> (r: PlannerSettings)
        ensures
            r == self.planner_settings,
    {
        self.planner_settings
    }

    pub fn shifts(&self) -> (r: &Vec<JobShift>)
        ensures
            r == &self.shifts,
    {
        &self.shifts
    }

    pub fn salaried_standards(&self) -> (r: &Vec<SalariedStandard>)
        ensures
            r == &self.salaried_standards,
    {
        &self.salaried_standards
    }

    /// The job's shifts under the given standard set, in declaration
    /// order.
    pub fn shifts_for_standard_set(&self, standard_set_id: StandardSetId) -> (r: Vec<&JobShift>)
        ensures
            r@.map_values(|s: &JobShift| *s) == spec_shifts_for(*self, standard_set_id),
    {
        let ghost pred = |s: JobShift| s.standard_set_id == standard_set_id;
        let mut out: Vec<&JobShift> = Vec::new();
        let mut i: usize = 0;
        proof {
            assert(self.shifts@.take(0) =~= Seq::<JobShift>::empty());
            reveal(Seq::filter);
        }
        while i < self.shifts.len()
            invariant
                0 <= i <= self.shifts@.len(),
                out@.map_values(|s: &JobShift| *s) == self.shifts@.take(i as int).filter(pred),
                pred == (|s: JobShift| s.standard_set_id == standard_set_id),
            decreases self.shifts@.len() - i,
        {
            let ghost taken = self.shifts@.take(i as int + 1);
            proof {
                reveal(Seq::filter);
                assert(taken.drop_last() =~= self.shifts@.take(i as int));
                assert(taken.last() == self.shifts@[i as int]);
            }
            let ghost out_before = out@;
            if self.shifts[i].standard_set_id.bits == standard_set_id.bits {
                out.push(&self.shifts[i]);
                assert(out@.map_values(|s: &JobShift| *s) =~= out_before.map_values(
                    |s: &JobShift| *s,
                ).push(self.shifts@[i as int]));
            }
            i = i + 1;
        }
        assert(self.shifts@.take(self.shifts@.len() as int) =~= self.shifts@);
        out
    }

    /// The first salaried standard declared for the given standard set and
    /// shift, if any.
    pub fn salaried_standard_for_standard_set_and_shift(
        &self,
        standard_set_id: StandardSetId,
        shift: &JobShift,
    ) -> (r: Option<&SalariedStandard>)
        ensures
            match r {
                Some(s) => Some(*s) == spec_first_standard(
                    self.salaried_standards@,
                    standard_set_id,
                    shift.id,
                ),
                None => spec_first_standard(self.salaried_standards@, standard_set_id, shift.id)
                    is None,
            },
    {
        let ghost all = self.salaried_standards@;
        let mut i: usize = 0;
        proof {
            assert(all.skip(0) =~= all);
        }
        while i < self.salaried_standards.len()
            invariant
                0 <= i <= all.len(),
                all == self.salaried_standards@,
                spec_first_standard(all, standard_set_id, shift.id) == spec_first_standard(
                    all.skip(i as int),
                    standard_set_id,
                    shift.id,
                ),
            decreases all.len() - i,
        {
            let ghost suffix = all.skip(i as int);
            assert(suffix.len() == all.len() - i);
            assert(suffix[0] == all[i as int]);
            let candidate = &self.salaried_standards[i];
            if candidate.standard_set_id.bits == standard_set_id.bits && candidate.shift.id.bits
                == shift.id.bits {
                assert(spec_first_standard(suffix, standard_set_id, shift.id) == Some(suffix[0]));
                return Some(candidate);
            }
            assert(suffix.drop_first() =~= all.skip(i as int + 1));
            i = i + 1;
        }
        assert(all.skip(i as int) =~= Seq::<SalariedStandard>::empty());
        None
    }
}

} // verus!
