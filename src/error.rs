use vstd::prelude::*;

verus! {

/// The failures the job core reports.
#[derive(Clone, Copy, Debug, PartialEq, Eq, Structural)]
pub enum JobError {
    /// No job matches, or the job is not in the state the request needs.
    NotFound,
    /// The job's status differs from the one the update expected, or the
    /// requested move is not in the transition table.
    Conflict,
    /// No fresh job id could be drawn within the allowed attempts.
    JobCreation,
    /// The id is already taken by another job.
    DuplicateId,
    /// A negative limit or offset was asked for.
    InvalidQuery,
    /// The inference call failed.
    Upstream,
    /// The store could not be reached.
    Store,
    /// The broker refused or lost a message.
    Broker,
}

impl JobError {
    /// The HTTP status a client sees for this error: 404 for a missing job,
    /// 500 for everything else.
    pub fn http_status(self) -> (r: u16)
        ensures
            r == (if self == JobError::NotFound {
                404u16
            } else {
                500u16
            }),
    {
        match self {
            JobError::NotFound => 404,
            _ => 500,
        }
    }
}

} // verus!
