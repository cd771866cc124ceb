//! Orders, from a signal to a closed position.

pub mod audit_context;
pub mod client;
pub mod dry_run;
pub mod errors;
pub mod exit_decision;
pub mod gtc_entry;
pub mod gtc_exit;
pub mod live_exit;
pub mod live_task;
pub mod math;
pub mod order;
pub mod rejection;
pub mod revalidation;
pub mod token;
pub mod types;
