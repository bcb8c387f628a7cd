use vstd::prelude::*;

use crate::error::JobError;
use crate::job::opt_bytes;
use crate::status::JobStatus;
use crate::store::{guarded_update, has_status, lemma_lookup_status, JobStore};

verus! {

/// A person's verdict on a job that waits for human feedback.
pub struct UpdateJob {
    pub id: String,
    pub status: JobStatus,
    pub payload: Option<Vec<u8>>,
    pub response: Option<Vec<u8>>,
}

impl JobStore {
    /// Applies a human verdict to the job under `update.id`, which must be waiting
    /// for human feedback (else `NotFound`); a verdict that keeps it waiting is
    /// a `Conflict`. Returns the id to publish again when the person sends the
    /// job back to inference.
    pub fn review_job(&mut self, update: UpdateJob) -> (r: Result<Option<String>, JobError>)
        requires
            old(self).well_formed(),
        ensures
            final(self).well_formed(),
            r is Ok <==> update.status != JobStatus::Human && has_status(
                old(self)@,
                update.id@,
                JobStatus::Human,
            ),
            r == Err::<Option<String>, JobError>(JobError::NotFound) <==> !has_status(
                old(self)@,
                update.id@,
                JobStatus::Human,
            ),
            r == Err::<Option<String>, JobError>(JobError::Conflict) <==> update.status
                == JobStatus::Human && has_status(old(self)@, update.id@, JobStatus::Human),
            r is Err ==> final(self)@ == old(self)@,
            r is Ok ==> final(self)@ == guarded_update(
                old(self)@,
                update.id@,
                JobStatus::Human,
                update.status,
                opt_bytes(update.payload),
                opt_bytes(update.response),
            ),
            r matches Ok(p) ==> (p is Some <==> update.status == JobStatus::Bot),
            r matches Ok(Some(id)) ==> id@ == update.id@,
    {
        if update.status == JobStatus::Human {
            proof {
                lemma_lookup_status(self@, update.id@, JobStatus::Human);
            }
            return match self.fetch(&update.id) {
                Ok(job) => {
                    if job.status == JobStatus::Human {
                        Err(JobError::Conflict)
                    } else {
                        Err(JobError::NotFound)
                    }
                },
                Err(_) => Err(JobError::NotFound),
            };
        }
        let UpdateJob { id, status, payload, response } = update;
        match self.apply_transition(&id, JobStatus::Human, status, payload, response) {
            Ok(()) => {
                if status == JobStatus::Bot {
                    Ok(Some(id))
                } else {
                    Ok(None)
                }
            },
            Err(_) => Err(JobError::NotFound),
        }
    }
}

} // verus!
