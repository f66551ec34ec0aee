//! Output value types: per-date labor hours and planned shifts.

use crate::dates::Date;
use crate::ids::{JobId, LocationId, PlannedShiftId, ShiftCategoryId};
use vstd::prelude::*;

verus! {

/// One day's required hours for a job; hours are hundredths of an hour.
#[derive(Debug, Clone, Copy, PartialEq, Eq, Structural)]
pub struct LaborData {
    pub job_id: JobId,
    pub date: Date,
    pub hours: i64,
}

impl LaborData {
    pub fn new(job_id: JobId, date: Date, hours: i64) -> (r: LaborData)
        ensures
            r == (LaborData { job_id, date, hours }),
    {
        LaborData { job_id, date, hours }
    }

    pub fn job_id(&self) -> (r: JobId)
        ensures
            r == self.job_id,
    {
        self.job_id
    }

    pub fn date(&self) -> (r: Date)
        ensures
            r == self.date,
    {
        self.date
    }

    pub fn hours(&self) -> (r: i64)
        ensures
            r == self.hours,
    {
        self.hours
    }
}

/// A moment on a calendar day, to the minute.
#[derive(Debug, Clone, Copy, PartialEq, Eq, Structural)]
pub struct DateTime {
    pub date: Date,
    pub minute_of_day: u32,
}

impl DateTime {
    pub fn new(date: Date, minute_of_day: u32) -> (r: DateTime)
        ensures
            r == (DateTime { date, minute_of_day }),
    {
        DateTime { date, minute_of_day }
    }
}

/// The planning nature of a shift.
#[derive(Debug, Clone, Copy, PartialEq, Eq, Structural)]
pub enum PlannedShiftType {
    Projected,
}

/// How a planned shift came to exist.
#[derive(Debug, Clone, Copy, PartialEq, Eq, Structural)]
pub enum PlannedShiftSource {
    Auto,
}

/// A concrete shift placed on a date, with its working window.
#[derive(Debug, Clone, Copy, PartialEq, Eq, Structural)]
pub struct PlannedShift {
    pub id: PlannedShiftId,
    pub location_id: LocationId,
    pub job_id: JobId,
    pub shift_type: PlannedShiftType,
    pub shift_date: Date,
    pub date_shift_generated_from: Date,
    pub start_date_time: DateTime,
    pub end_date_time: DateTime,
    pub duration_minutes: u32,
    pub source: PlannedShiftSource,
    pub shift_category_id: Option<ShiftCategoryId>,
    pub assignment_id: Option<JobId>,
}

impl PlannedShift {
    /// A freshly generated shift spanning one day's window; its duration
    /// is the whole minutes between start and end.
    pub fn new(
        location_id: LocationId,
        job_id: JobId,
        shift_type: PlannedShiftType,
        shift_date: Date,
        start_date_time: DateTime,
        end_date_time: DateTime,
    ) -> (r: PlannedShift)
        requires
            start_date_time.date == end_date_time.date,
            start_date_time.minute_of_day <= end_date_time.minute_of_day,
        ensures
            r.location_id == location_id,
            r.job_id == job_id,
            r.shift_type == shift_type,
            r.shift_date == shift_date,
            r.date_shift_generated_from == shift_date,
            r.start_date_time == start_date_time,
            r.end_date_time == end_date_time,
            r.duration_minutes == end_date_time.minute_of_day - start_date_time.minute_of_day,
            r.source == PlannedShiftSource::Auto,
            r.shift_category_id is None,
            r.assignment_id is None,
    {
        PlannedShift {
            id: PlannedShiftId::new(),
            location_id,
            job_id,
            shift_type,
            shift_date,
            date_shift_generated_from: shift_date,
            start_date_time,
            end_date_time,
            duration_minutes: end_date_time.minute_of_day - start_date_time.minute_of_day,
            source: PlannedShiftSource::Auto,
            shift_category_id: None,
            assignment_id: None,
        }
    }

    pub fn id(&self) -> (r: PlannedShiftId)
        ensures
            r == self.id,
    {
        self.id
    }

    pub fn location_id(&self) -> (r: LocationId)
        ensures
            r == self.location_id,
    {
        self.location_id
    }

    pub fn job_id(&self) -> (r: JobId)
        ensures
            r == self.job_id,
    {
        self.job_id
    }

    pub fn shift_type(&self) -> (r: PlannedShiftType)
        ensures
            r == self.shift_type,
    {
        self.shift_type
    }

    pub fn shift_date(&self) -> (r: Date)
        ensures
            r == self.shift_date,
    {
        self.shift_date
    }

    pub fn date_shift_generated_from(&self) -> (r: Date)
        ensures
            r == self.date_shift_generated_from,
    {
        self.date_shift_generated_from
    }

    pub fn start_date_time(&self) -> (r: DateTime)
        ensures
            r == self.start_date_time,
    {
        self.start_date_time
    }

    pub fn end_date_time(&self) -> (r: DateTime)
        ensures
            r == self.end_date_time,
    {
        self.end_date_time
    }

    pub fn duration(&self) -> (r: u32)
        ensures
            r == self.duration_minutes,
    {
        self.duration_minutes
    }

    pub fn source(&self) -> (r: PlannedShiftSource)
        ensures
            r == self.source,
    {
        self.source
    }

    pub fn shift_category_id(&self) -> (r: Option<ShiftCategoryId>)
        ensures
            r == self.shift_category_id,
    {
        self.shift_category_id
    }

    pub fn assignment_id(&self) -> (r: Option<JobId>)
        ensures
            r == self.assignment_id,
    {
        self.assignment_id
    }
}

} // verus!
