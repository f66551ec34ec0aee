//! Typed identifiers for the domain entities.
//!
//! Each entity has its own identifier type wrapping the 128 bits of a
//! freshly generated UUID, so identifiers of different entities cannot be
//! confused. Most are random (version 4); planned-shift identifiers are
//! time-ordered (version 7), so that later shifts sort after earlier ones.

use vstd::prelude::*;

verus! {

/// Relies on uuid::Uuid::new_v4, a freshly generated random UUID, and
/// uuid::Uuid::as_u128, its 128 bits. Nothing is promised of the value.
#[verifier::external_body]
fn fresh_v4_bits() -> u128 {
    uuid::Uuid::new_v4().as_u128()
}

/// Relies on uuid::Uuid::now_v7, a freshly generated time-ordered UUID,
/// and uuid::Uuid::as_u128, its 128 bits. The value depends on the clock,
/// so nothing is promised of it.
#[verifier::external_body]
fn fresh_v7_bits() -> u128 {
    uuid::Uuid::now_v7().as_u128()
}

/// Identifier of a job.
#[derive(Debug, Clone, Copy, PartialEq, Eq, Hash, Structural)]
pub struct JobId {
    pub bits: u128,
}

impl JobId {
    pub fn new() -> Self {
        JobId { bits: fresh_v4_bits() }
    }
}

/// Identifier of a job shift.
#[derive(Debug, Clone, Copy, PartialEq, Eq, Hash, Structural)]
pub struct JobShiftId {
    pub bits: u128,
}

impl JobShiftId {
    pub fn new() -> Self {
        JobShiftId { bits: fresh_v4_bits() }
    }
}

/// Identifier of a location.
#[derive(Debug, Clone, Copy, PartialEq, Eq, Hash, Structural)]
pub struct LocationId {
    pub bits: u128,
}

impl LocationId {
    pub fn new() -> Self {
        LocationId { bits: fresh_v4_bits() }
    }
}

/// Identifier of a standard set.
#[derive(Debug, Clone, Copy, PartialEq, Eq, Hash, Structural)]
pub struct StandardSetId {
    pub bits: u128,
}

impl StandardSetId {
    pub fn new() -> Self {
        StandardSetId { bits: fresh_v4_bits() }
    }
}

/// Identifier of a business driver.
#[derive(Debug, Clone, Copy, PartialEq, Eq, Hash, Structural)]
pub struct BusinessDriverId {
    pub bits: u128,
}

impl BusinessDriverId {
    pub fn new() -> Self {
        BusinessDriverId { bits: fresh_v4_bits() }
    }
}

/// Identifier of a shift category.
#[derive(Debug, Clone, Copy, PartialEq, Eq, Hash, Structural)]
pub struct ShiftCategoryId {
    pub bits: u128,
}

impl ShiftCategoryId {
    pub fn new() -> Self {
        ShiftCategoryId { bits: fresh_v4_bits() }
    }
}

/// Identifier of a work-content entry.
#[derive(Debug, Clone, Copy, PartialEq, Eq, Hash, Structural)]
pub struct WorkContentId {
    pub bits: u128,
}

impl WorkContentId {
    pub fn new() -> Self {
        WorkContentId { bits: fresh_v4_bits() }
    }
}

/// Identifier of a planned shift; time-ordered, so identifiers generated
/// later compare greater.
#[derive(Debug, Clone, Copy, PartialEq, Eq, Hash, PartialOrd, Ord, Structural)]
pub struct PlannedShiftId {
    pub bits: u128,
}

impl PlannedShiftId {
    pub fn new() -> Self {
        PlannedShiftId { bits: fresh_v7_bits() }
    }
}

} // verus!
