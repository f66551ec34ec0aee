//! The work-results envelope and the standard-type dispatcher: one
//! strategy per labor-standard type, one result per job.

use crate::advanced::{spec_advanced_work_results, AdvancedWorkGenerator};
use crate::ids::JobId;
use crate::jobs::Job;
use crate::model::PlannerModel;
use crate::results::{LaborData, PlannedShift};
use crate::salaried::{spec_salaried_work_results, SalariedWorkGenerator};
use crate::settings::StandardType;
use vstd::prelude::*;
use vstd::string::StringExecFns;

verus! {

/// What a strategy produced for a job: planned shifts or per-date labor
/// hours, never both.
pub enum WorkPayload {
    Shifts(Vec<PlannedShift>),
    Labor(Vec<LaborData>),
}

/// The output envelope for one job.
pub struct WorkResults {
    pub job_id: JobId,
    pub payload: WorkPayload,
}

impl WorkResults {
    pub fn with_shifts(job_id: JobId, shifts: Vec<PlannedShift>) -> (r: WorkResults)
        ensures
            r.job_id == job_id,
            r.payload == WorkPayload::Shifts(shifts),
    {
        WorkResults { job_id, payload: WorkPayload::Shifts(shifts) }
    }

    pub fn with_labor_data(job_id: JobId, labor_data: Vec<LaborData>) -> (r: WorkResults)
        ensures
            r.job_id == job_id,
            r.payload == WorkPayload::Labor(labor_data),
    {
        WorkResults { job_id, payload: WorkPayload::Labor(labor_data) }
    }

    pub fn job_id(&self) -> (r: JobId)
        ensures
            r == self.job_id,
    {
        self.job_id
    }

    /// The shift list, when this result carries one.
    pub fn shifts(&self) -> (r: Option<&Vec<PlannedShift>>)
        ensures
            match self.payload {
                WorkPayload::Shifts(_) => r matches Some(s) && self.payload
                    == WorkPayload::Shifts(*s),
                WorkPayload::Labor(_) => r is None,
            },
    {
        match &self.payload {
            WorkPayload::Shifts(shifts) => Some(shifts),
            WorkPayload::Labor(_) => None,
        }
    }

    /// The labor-data list, when this result carries one.
    pub fn labor_data(&self) -> (r: Option<&Vec<LaborData>>)
        ensures
            match self.payload {
                WorkPayload::Labor(_) => r matches Some(l) && self.payload == WorkPayload::Labor(
                    *l,
                ),
                WorkPayload::Shifts(_) => r is None,
            },
    {
        match &self.payload {
            WorkPayload::Labor(labor) => Some(labor),
            WorkPayload::Shifts(_) => None,
        }
    }
}

/// An empty shift-list envelope for the job: what the strategies that
/// plan no work produce.
pub open spec fn spec_empty_shift_results(job: Job, r: WorkResults) -> bool {
    &&& r.job_id == job.id
    &&& match r.payload {
        WorkPayload::Shifts(shifts) => shifts@.len() == 0,
        WorkPayload::Labor(_) => false,
    }
}

/// The strategy for jobs with no labor standard: an empty shift list.
pub struct NoneWorkGenerator;

impl NoneWorkGenerator {
    pub fn new() -> Self {
        Self
    }

    pub fn generate_work(&self, _planner_model: &PlannerModel, job: &Job) -> (r: WorkResults)
        ensures
            spec_empty_shift_results(*job, r),
    {
        WorkResults::with_shifts(job.id(), Vec::new())
    }
}

/// Processes a job's BASIC standards into the shift-list envelope.
/// Assembling concrete planned shifts from the break/rounding calculator's
/// output is the surrounding application's concern, so the list is empty.
pub struct BasicStandardsProcessorImpl;

impl BasicStandardsProcessorImpl {
    pub fn new() -> Self {
        Self
    }

    pub fn process(&self, _planner_model: &PlannerModel, job: &Job) -> (r: WorkResults)
        ensures
            spec_empty_shift_results(*job, r),
    {
        WorkResults::with_shifts(job.id(), Vec::new())
    }
}

/// The strategy for BASIC standards; delegates to the standards processor.
pub struct BasicWorkGenerator;

impl BasicWorkGenerator {
    pub fn new() -> Self {
        Self
    }

    pub fn generate_work(&self, planner_model: &PlannerModel, job: &Job) -> (r: WorkResults)
        ensures
            spec_empty_shift_results(*job, r),
    {
        BasicStandardsProcessorImpl::new().process(planner_model, job)
    }
}

/// Turns work-content markers into planned-shift markers, one for one.
pub struct BasicPlannedShiftCreator;

impl BasicPlannedShiftCreator {
    pub fn new() -> Self {
        Self
    }

    /// One planned-shift marker per work-content marker, in order.
    pub fn create_planned_shifts_from_work_contents(&self, work_contents: &Vec<String>) -> (r:
        Vec<String>)
        ensures
            r@.len() == work_contents@.len(),
            forall|i: int|
                0 <= i < work_contents@.len() ==> (#[trigger] r@[i])@ == "PLANNED:"@ + (
                work_contents@[i])@,
    {
        let mut planned_shifts: Vec<String> = Vec::new();
        let mut i: usize = 0;
        while i < work_contents.len()
            invariant
                0 <= i <= work_contents@.len(),
                planned_shifts@.len() == i,
                forall|j: int|
                    0 <= j < i ==> (#[trigger] planned_shifts@[j])@ == "PLANNED:"@ + (
                    work_contents@[j])@,
            decreases work_contents@.len() - i,
        {
            planned_shifts.push(Self::create_planned_shift(work_contents[i].as_str()));
            i = i + 1;
        }
        planned_shifts
    }

    /// A work-content marker tagged as planned.
    pub fn create_planned_shift(work_content_marker: &str) -> (r: String)
        ensures
            r@ == "PLANNED:"@ + work_content_marker@,
    {
        let mut marker = String::new();
        marker.append("PLANNED:");
        marker.append(work_content_marker);
        proof {
            assert(marker@ =~= "PLANNED:"@ + work_content_marker@);
        }
        marker
    }
}

/// What the strategy selected for a standard type must produce for a job:
/// the NONE and BASIC strategies an empty shift list, the SALARIED and
/// ADVANCED strategies per-date labor data.
pub open spec fn spec_generated_work(
    standard_type: StandardType,
    model: PlannerModel,
    job: Job,
    r: WorkResults,
) -> bool {
    match standard_type {
        StandardType::SALARIED => spec_salaried_work_results(model, job, r),
        StandardType::ADVANCED => spec_advanced_work_results(model, job, r),
        _ => spec_empty_shift_results(job, r),
    }
}

/// The closed set of strategies, keyed by standard type.
pub enum WorkGeneratorKind {
    NoStandard(NoneWorkGenerator),
    Basic(BasicWorkGenerator),
    Advanced(AdvancedWorkGenerator),
    Salaried(SalariedWorkGenerator),
}

/// The standard type a strategy serves.
pub open spec fn spec_kind_standard_type(kind: WorkGeneratorKind) -> StandardType {
    match kind {
        WorkGeneratorKind::NoStandard(_) => StandardType::NONE,
        WorkGeneratorKind::Basic(_) => StandardType::BASIC,
        WorkGeneratorKind::Advanced(_) => StandardType::ADVANCED,
        WorkGeneratorKind::Salaried(_) => StandardType::SALARIED,
    }
}

/// The strategy a standard type selects.
pub open spec fn spec_kind_for(standard_type: StandardType) -> WorkGeneratorKind {
    match standard_type {
        StandardType::NONE => WorkGeneratorKind::NoStandard(NoneWorkGenerator),
        StandardType::BASIC => WorkGeneratorKind::Basic(BasicWorkGenerator),
        StandardType::ADVANCED => WorkGeneratorKind::Advanced(AdvancedWorkGenerator),
        StandardType::SALARIED => WorkGeneratorKind::Salaried(SalariedWorkGenerator),
    }
}

impl From<StandardType> for WorkGeneratorKind {
    /// Selection is a total function from standard type to strategy.
    fn from(standard_type: StandardType) -> (r: WorkGeneratorKind) {
        match standard_type {
            StandardType::NONE => WorkGeneratorKind::NoStandard(NoneWorkGenerator::new()),
            StandardType::BASIC => WorkGeneratorKind::Basic(BasicWorkGenerator::new()),
            StandardType::ADVANCED => WorkGeneratorKind::Advanced(AdvancedWorkGenerator::new()),
            StandardType::SALARIED => WorkGeneratorKind::Salaried(SalariedWorkGenerator::new()),
        }
    }
}

impl vstd::std_specs::convert::FromSpecImpl<StandardType> for WorkGeneratorKind {
    open spec fn obeys_from_spec() -> bool {
        true
    }

    open spec fn from_spec(standard_type: StandardType) -> WorkGeneratorKind {
        spec_kind_for(standard_type)
    }
}

impl WorkGeneratorKind {
    /// The strategy for a standard type: a total mapping over the closed
    /// enumeration.
    pub fn for_standard_type(standard_type: StandardType) -> (r: WorkGeneratorKind)
        ensures
            r == spec_kind_for(standard_type),
            spec_kind_standard_type(r) == standard_type,
    {
        WorkGeneratorKind::from(standard_type)
    }

    /// Runs the strategy on one job.
    pub fn generate_work(&self, planner_model: &PlannerModel, job: &Job) -> (r: WorkResults)
        requires
            planner_model.wf(),
            job.wf(),
        ensures
            spec_generated_work(spec_kind_standard_type(*self), *planner_model, *job, r),
    {
        match self {
            WorkGeneratorKind::NoStandard(generator) => generator.generate_work(planner_model, job),
            WorkGeneratorKind::Basic(generator) => generator.generate_work(planner_model, job),
            WorkGeneratorKind::Advanced(generator) => generator.generate_work(planner_model, job),
            WorkGeneratorKind::Salaried(generator) => generator.generate_work(planner_model, job),
        }
    }
}

/// One result per job, in job order, each produced by the strategy the
/// job's standard type selects.
pub fn generate_work_content(planner_model: PlannerModel) -> (r: Vec<WorkResults>)
    requires
        planner_model.wf(),
    ensures
        r@.len() == planner_model.jobs@.len(),
        forall|i: int|
            0 <= i < planner_model.jobs@.len() ==> spec_generated_work(
                planner_model.jobs@[i].planner_settings.standard_type,
                planner_model,
                planner_model.jobs@[i],
                #[trigger] r@[i],
            ),
{
    let mut results: Vec<WorkResults> = Vec::new();
    let mut i: usize = 0;
    while i < planner_model.jobs.len()
        invariant
            planner_model.wf(),
            0 <= i <= planner_model.jobs@.len(),
            results@.len() == i,
            forall|j: int|
                0 <= j < i ==> spec_generated_work(
                    planner_model.jobs@[j].planner_settings.standard_type,
                    planner_model,
                    planner_model.jobs@[j],
                    #[trigger] results@[j],
                ),
        decreases planner_model.jobs@.len() - i,
    {
        let job = &planner_model.jobs[i];
        let kind = WorkGeneratorKind::for_standard_type(job.planner_settings().standard_type);
        results.push(kind.generate_work(&planner_model, job));
        i = i + 1;
    }
    results
}

} // verus!
