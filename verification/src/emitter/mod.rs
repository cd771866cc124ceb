//! The audit trail.

pub mod audit;
