//! Connection targets, instance detection and the spot work planner.

pub mod detect;
pub mod spots;
pub mod types;
