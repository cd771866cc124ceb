//! Positions, signals and decisions.

pub mod decision;
pub mod state;
pub mod strategy;
