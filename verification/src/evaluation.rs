//! Outcomes of decisions, the risks that they should have seen, and what is learned.
pub mod outcome;
pub mod policy;
pub mod risk_ground_truth;
