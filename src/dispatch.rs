use vstd::prelude::*;
use vstd::slice::slice_to_vec;
use vstd::utf8::{decode_utf8, encode_utf8, valid_utf8};

use crate::error::JobError;
use crate::job::JobView;
use crate::status::JobStatus;
use crate::store::{guarded_update, has_status, lookup, JobStore};

verus! {

/// Relies on std's `String::from_utf8`: it succeeds exactly on valid UTF-8,
/// and then holds the characters that the bytes encode.
#[verifier::external_body]
fn utf8_to_string(b: Vec<u8>) -> (r: Option<String>)
    ensures
        r is Some <==> valid_utf8(b@),
        r matches Some(s) ==> s@ == decode_utf8(b@),
{
    String::from_utf8(b).ok()
}

/// The broker message for a job: its id as UTF-8, nothing else.
pub fn job_message(job_id: &String) -> (r: Vec<u8>)
    ensures
        r@ == encode_utf8(job_id@),
{
    slice_to_vec(job_id.as_str().as_bytes())
}

/// The job id a broker message carries, if it is valid UTF-8.
pub fn message_job_id(data: Vec<u8>) -> (r: Option<String>)
    ensures
        r is Some <==> valid_utf8(data@),
        r matches Some(s) ==> s@ == decode_utf8(data@),
{
    utf8_to_string(data)
}

/// What the worker does with one delivered message.
pub enum DeliveryPlan {
    /// Acknowledge without further work: the message names no job that
    /// waits for inference.
    Skip,
    /// Call the inference endpoint with the payload, then finish the job.
    Infer { job_id: String, payload: Vec<u8> },
}

/// The job that a message refers to, when it waits for inference.
pub open spec fn awaiting_inference(s: Seq<JobView>, data: Seq<u8>) -> bool {
    valid_utf8(data) && has_status(s, decode_utf8(data), JobStatus::Bot)
}

impl JobStore {
    /// Decides what to do with a delivered message, reading the job it names.
    pub fn plan_delivery(&self, data: Vec<u8>) -> (r: DeliveryPlan)
        requires
            self.well_formed(),
        ensures
            r is Skip <==> !awaiting_inference(self@, data@),
            r matches DeliveryPlan::Infer { job_id, payload } ==> job_id@ == decode_utf8(data@)
                && lookup(self@, job_id@) == Some(
                (JobView { payload: payload@, ..lookup(self@, job_id@).unwrap() }),
            ),
    {
        let job_id = match message_job_id(data) {
            Some(id) => id,
            None => return DeliveryPlan::Skip,
        };
        match self.fetch(&job_id) {
            Ok(job) => {
                if job.status == JobStatus::Bot {
                    DeliveryPlan::Infer { job_id, payload: job.payload }
                } else {
                    DeliveryPlan::Skip
                }
            },
            Err(_) => DeliveryPlan::Skip,
        }
    }

    /// Records the outcome of the inference call for `job_id`: a response
    /// moves the job from waiting for inference to waiting for review; a
    /// failed call leaves it as it is. Returns whether a row was written.
    pub fn finish_delivery(&mut self, job_id: &String, outcome: Result<Vec<u8>, JobError>) -> (r:
        bool)
        requires
            old(self).well_formed(),
        ensures
            final(self).well_formed(),
            outcome matches Ok(resp) ==> final(self)@ == guarded_update(
                old(self)@,
                job_id@,
                JobStatus::Bot,
                JobStatus::Human,
                None,
                Some(resp@),
            ) && r == has_status(old(self)@, job_id@, JobStatus::Bot),
            outcome is Err ==> final(self)@ == old(self)@ && !r,
    {
        match outcome {
            Ok(resp) => {
                let count = self.update_if(job_id, JobStatus::Bot, JobStatus::Human, None, Some(resp));
                count == 1
            },
            Err(_) => false,
        }
    }
}

} // verus!
