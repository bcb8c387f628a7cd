use vstd::prelude::*;

use crate::error::JobError;
use crate::job::InferenceJobModel;
use crate::status::JobStatus;
use crate::store::{page, views, JobStore};

verus! {

/// A listing request: an optional status filter and a window into the
/// matching jobs, ordered by creation time.
pub struct QueryJobs {
    pub offset: i64,
    pub limit: i64,
    pub status: Option<JobStatus>,
}

impl QueryJobs {
    /// A request for the first `limit` jobs, whatever their status.
    pub fn new(limit: i64) -> (r: QueryJobs)
        ensures
            r.offset == 0,
            r.limit == limit,
            r.status is None,
    {
        QueryJobs { offset: 0, limit, status: None }
    }
}

impl JobStore {
    /// The page of jobs that `query` asks for; a negative limit or offset is
    /// refused.
    pub fn list_jobs(&self, query: &QueryJobs) -> (r: Result<Vec<InferenceJobModel>, JobError>)
        requires
            self.well_formed(),
        ensures
            r is Err <==> query.offset < 0 || query.limit < 0,
            r matches Err(e) ==> e == JobError::InvalidQuery,
            r matches Ok(v) ==> views(v@) == page(
                self@,
                query.status,
                query.offset as int,
                query.limit as int,
            ),
    {
        if query.offset < 0 || query.limit < 0 {
            return Err(JobError::InvalidQuery);
        }
        Ok(self.list(query.status, query.limit as u64, query.offset as u64))
    }
}

} // verus!
