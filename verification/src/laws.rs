//! What holds of the records and rules as a whole, stated on the fields that callers see.
pub mod agents;
pub mod answers;
pub mod basics;
pub mod decision;
pub mod execution;
pub mod identity;
pub mod instruments;
pub mod learning;
pub mod mandate;
pub mod outcome;
pub mod records;
pub mod release;
pub mod research;
pub mod reviews;
pub mod safety;
pub mod trials;
pub mod workflow;
