//! The account, the market, the session and the plan that a decision is executed with, and what
//! came of it.
pub mod effects;
pub mod plan;
pub mod session;
pub mod snapshots;
