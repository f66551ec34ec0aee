//! Workforce-planning calculators: turns a job's labor-standard
//! configuration and business-driver volumes into planned-shift counts or
//! per-date required labor hours.
//!
//! All fractional quantities (hours, minutes, rates) are held as integer
//! hundredths, since every rule in this domain rounds to two decimals,
//! half away from zero. A value of `800` hundredths of an hour is 8.00 h.

pub mod numbers;
pub mod text;
pub mod ids;
pub mod dates;
pub mod settings;
pub mod jobs;
pub mod model;
pub mod basic;
pub mod per_unit;
pub mod frequency;
pub mod results;
pub mod salaried;
pub mod advanced;
pub mod generators;
