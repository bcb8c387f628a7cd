use vstd::prelude::*;

verus! {

/// Length of a generated job id.
pub const JOB_ID_LEN: usize = 8;

pub open spec fn is_alphanumeric(c: char) -> bool {
    ('0' <= c && c <= '9') || ('A' <= c && c <= 'Z') || ('a' <= c && c <= 'z')
}

/// A job id as the library generates it: fixed length, ASCII letters and digits.
pub open spec fn valid_job_id(id: Seq<char>) -> bool {
    id.len() == JOB_ID_LEN && forall|i: int| 0 <= i < id.len() ==> is_alphanumeric(#[trigger] id[i])
}

/// Relies on rand's `Alphanumeric::sample_string` over the thread-local
/// generator: `len` characters, each drawn from `A-Z`, `a-z` and `0-9`.
#[verifier::external_body]
pub(crate) fn random_alphanumeric(len: usize) -> (r: String)
    ensures
        r@.len() == len,
        forall|i: int| 0 <= i < r@.len() ==> is_alphanumeric(#[trigger] r@[i]),
{
    rand::distributions::DistString::sample_string(
        &rand::distributions::Alphanumeric,
        &mut rand::thread_rng(),
        len,
    )
}

/// Relies on chrono's `Utc::now` and `DateTime::timestamp_micros`: the current
/// time in microseconds since the Unix epoch, about which nothing is promised.
#[verifier::external_body]
pub(crate) fn now_micros() -> (r: i64) {
    chrono::Utc::now().timestamp_micros()
}

/// A fresh job id.
pub fn new_job_id() -> (r: String)
    ensures
        valid_job_id(r@),
{
    random_alphanumeric(JOB_ID_LEN)
}

} // verus!
