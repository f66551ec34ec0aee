//! The planning run's fixed context and the small catalog entities it
//! refers to.

use crate::dates::DateRange;
use crate::ids::{BusinessDriverId, LocationId, ShiftCategoryId, StandardSetId};
use crate::jobs::Job;
use std::collections::HashMap;
use vstd::prelude::*;

verus! {

/// A physical location jobs belong to.
#[derive(Debug, Clone, Copy, PartialEq, Eq, Structural)]
pub struct Location {
    pub id: LocationId,
}

impl Location {
    pub fn new(id: LocationId) -> (r: Location)
        ensures
            r.id == id,
    {
        Location { id }
    }

    pub fn id(&self) -> (r: LocationId)
        ensures
            r == self.id,
    {
        self.id
    }
}

/// A named set of labor standards a planning run is generated against.
#[derive(Debug, Clone, Copy, PartialEq, Eq, Structural)]
pub struct StandardSet {
    pub id: StandardSetId,
}

impl StandardSet {
    pub fn new(id: StandardSetId) -> (r: StandardSet)
        ensures
            r.id == id,
    {
        StandardSet { id }
    }

    pub fn id(&self) -> (r: StandardSetId)
        ensures
            r == self.id,
    {
        self.id
    }
}

/// An external volume metric (for example a transaction count) used to
/// scale advanced-standard work.
#[derive(Debug, Clone, Copy, PartialEq, Eq, Structural)]
pub struct BusinessDriver {
    pub id: BusinessDriverId,
    pub location_id: LocationId,
}

impl BusinessDriver {
    pub fn new(id: BusinessDriverId, location_id: LocationId) -> (r: BusinessDriver)
        ensures
            r.id == id,
            r.location_id == location_id,
    {
        BusinessDriver { id, location_id }
    }

    pub fn id(&self) -> (r: BusinessDriverId)
        ensures
            r == self.id,
    {
        self.id
    }

    pub fn location_id(&self) -> (r: LocationId)
        ensures
            r == self.location_id,
    {
        self.location_id
    }
}

/// A category a planned shift may be tagged with.
#[derive(Debug, Clone)]
pub struct ShiftCategory {
    pub id: ShiftCategoryId,
    pub location_id: LocationId,
    pub name: String,
    pub code: String,
    pub training_shift: bool,
    pub contract_shift: bool,
}

impl ShiftCategory {
    pub fn new(
        location_id: LocationId,
        name: String,
        code: String,
        training_shift: bool,
        contract_shift: bool,
    ) -> (r: ShiftCategory)
        ensures
            r.location_id == location_id,
            r.name == name,
            r.code == code,
            r.training_shift == training_shift,
            r.contract_shift == contract_shift,
    {
        ShiftCategory { id: ShiftCategoryId::new(), location_id, name, code, training_shift, contract_shift }
    }

    pub fn id(&self) -> (r: ShiftCategoryId)
        ensures
            r == self.id,
    {
        self.id
    }

    pub fn location_id(&self) -> (r: LocationId)
        ensures
            r == self.location_id,
    {
        self.location_id
    }

    pub fn name(&self) -> (r: &str)
        ensures
            r@ == self.name@,
    {
        self.name.as_str()
    }

    pub fn code(&self) -> (r: &str)
        ensures
            r@ == self.code@,
    {
        self.code.as_str()
    }

    pub fn training_shift(&self) -> (r: bool)
        ensures
            r == self.training_shift,
    {
        self.training_shift
    }

    pub fn contract_shift(&self) -> (r: bool)
        ensures
            r == self.contract_shift,
    {
        self.contract_shift
    }
}

/// A planning run's fixed context: the date range, the location, the
/// active standard set, the jobs to plan, and the business-driver catalog
/// with per-run values. Driver values are keyed by the driver
/// identifier's bits, so reads of the map carry full specifications.
pub struct PlannerModel {
    pub dates: DateRange,
    pub location_id: LocationId,
    pub standard_set_id: StandardSetId,
    pub jobs: Vec<Job>,
    pub business_drivers: Vec<BusinessDriver>,
    pub business_driver_values: HashMap<u128, u32>,
}

impl PlannerModel {
    /// A model the generators can process: a valid date range, valid jobs,
    /// and driver volumes within the calculators' bound.
    pub open spec fn wf(self) -> bool {
        &&& self.dates.wf()
        &&& forall|i: int| 0 <= i < self.jobs@.len() ==> (#[trigger] self.jobs@[i]).wf()
        &&& forall|k: u128|
            self.business_driver_values@.contains_key(k)
                ==> #[trigger] self.business_driver_values@[k]
                <= crate::per_unit::DRIVER_LIMIT as u32
    }

    pub fn new(
        dates: DateRange,
        location_id: LocationId,
        standard_set_id: StandardSetId,
        jobs: Vec<Job>,
        business_drivers: Vec<BusinessDriver>,
        business_driver_values: HashMap<u128, u32>,
    ) -> (r: PlannerModel)
        ensures
            r.dates == dates,
            r.location_id == location_id,
            r.standard_set_id == standard_set_id,
            r.jobs == jobs,
            r.business_drivers == business_drivers,
            r.business_driver_values == business_driver_values,
    {
        PlannerModel { dates, location_id, standard_set_id, jobs, business_drivers, business_driver_values }
    }

    pub fn dates(&self) -> (r: DateRange)
        ensures
            r == self.dates,
    {
        self.dates
    }

    pub fn location_id(&self) -> (r: &LocationId)
        ensures
            *r == self.location_id,
    {
        &self.location_id
    }

    pub fn standard_set_id(&self) -> (r: StandardSetId)
        ensures
            r == self.standard_set_id,
    {
        self.standard_set_id
    }

    pub fn jobs(&self) -> (r: &Vec<Job>)
        ensures
            r == &self.jobs,
    {
        &self.jobs
    }

    pub fn business_drivers(&self) -> (r: &Vec<BusinessDriver>)
        ensures
            r == &self.business_drivers,
    {
        &self.business_drivers
    }

    pub fn business_driver_values(&self) -> (r: &HashMap<u128, u32>)
        ensures
            r == &self.business_driver_values,
    {
        &self.business_driver_values
    }
}

} // verus!
