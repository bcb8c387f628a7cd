//! The lifecycle of inference jobs: the job table with its guarded updates,
//! the status transition table, human verdicts, and the decisions the queue
//! worker takes on each delivered message.

pub mod dispatch;
pub mod error;
pub mod job;
pub mod laws;
pub mod query;
pub mod review;
pub mod sources;
pub mod status;
pub mod store;
