//! Directional-drilling engine core: survey-angle conventions, annular
//! hydraulics in fixed-point arithmetic, the tubular geometry the mechanical
//! models accept, and excavation-permit rules.
//!
//! Quantities are fixed-point decimals held in integers: a field documented
//! "in thousandths" holds the value multiplied by 1000.

pub mod compliance;
pub mod convention;
pub mod geometry;
pub mod hydraulics;
pub mod text;
