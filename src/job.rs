use vstd::prelude::*;

use crate::sources::{new_job_id, now_micros, valid_job_id};
use crate::status::JobStatus;

verus! {

/// One persisted inference job: the row of the jobs table.
#[derive(Debug)]
pub struct InferenceJobModel {
    pub job_id: String,
    pub status: JobStatus,
    /// The submitted payload, as the JSON text's bytes.
    pub payload: Vec<u8>,
    /// The inference or review result, once one was written.
    pub response: Option<Vec<u8>>,
    /// Creation time, in microseconds since the Unix epoch.
    pub created_at: i64,
}

/// What a job holds, as plain mathematical values.
pub ghost struct JobView {
    pub id: Seq<char>,
    pub status: JobStatus,
    pub payload: Seq<u8>,
    pub response: Option<Seq<u8>>,
    pub created_at: int,
}

pub open spec fn opt_bytes(o: Option<Vec<u8>>) -> Option<Seq<u8>> {
    match o {
        Some(v) => Some(v@),
        None => None,
    }
}

impl View for InferenceJobModel {
    type V = JobView;

    open spec fn view(&self) -> JobView {
        JobView {
            id: self.job_id@,
            status: self.status,
            payload: self.payload@,
            response: opt_bytes(self.response),
            created_at: self.created_at as int,
        }
    }
}

/// A freshly created job: waiting for inference, with no response yet.
pub open spec fn fresh_job(id: Seq<char>, payload: Seq<u8>, created_at: int) -> JobView {
    JobView { id, status: JobStatus::Bot, payload, response: None, created_at }
}

fn copy_bytes(v: &Vec<u8>) -> (r: Vec<u8>)
    ensures
        r@ == v@,
{
    let mut r: Vec<u8> = Vec::with_capacity(v.len());
    let mut i: usize = 0;
    while i < v.len()
        invariant
            i <= v.len(),
            r@ == v@.take(i as int),
        decreases v.len() - i,
    {
        r.push(v[i]);
        i = i + 1;
        assert(r@ =~= v@.take(i as int));
    }
    assert(v@.take(i as int) =~= v@);
    r
}

fn copy_opt_bytes(o: &Option<Vec<u8>>) -> (r: Option<Vec<u8>>)
    ensures
        opt_bytes(r) == opt_bytes(*o),
{
    match o {
        Some(v) => Some(copy_bytes(v)),
        None => None,
    }
}

impl InferenceJobModel {
    /// A copy of the record with the same contents.
    pub fn duplicate(&self) -> (r: InferenceJobModel)
        ensures
            r@ == self@,
    {
        InferenceJobModel {
            job_id: self.job_id.clone(),
            status: self.status,
            payload: copy_bytes(&self.payload),
            response: copy_opt_bytes(&self.response),
            created_at: self.created_at,
        }
    }
}

/// A submitted job before it is stored: a fresh id, the submission time and
/// the payload.
pub struct Job {
    /// Unique job identifier to check status
    pub id: String,
    /// Submission time, in microseconds since the Unix epoch.
    pub created_at: i64,
    pub payload: Vec<u8>,
}

impl Job {
    /// A job for `payload` under a freshly drawn id, stamped with the
    /// current time.
    pub fn new(payload: Vec<u8>) -> (r: Job)
        ensures
            valid_job_id(r.id@),
            r.payload@ == payload@,
    {
        let id = new_job_id();
        Job { id, created_at: now_micros(), payload }
    }
}

} // verus!
