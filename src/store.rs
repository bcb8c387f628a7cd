use vstd::prelude::*;

use crate::error::JobError;
use crate::job::{fresh_job, opt_bytes, InferenceJobModel, JobView};
use crate::sources::{new_job_id, now_micros, valid_job_id};
use crate::status::{transition_allowed, JobStatus};

verus! {

/// The jobs table: records in creation order, ids unique, creation times
/// never decreasing along the table.
pub struct JobStore {
    rows: Vec<InferenceJobModel>,
}

pub open spec fn views(s: Seq<InferenceJobModel>) -> Seq<JobView> {
    s.map_values(|j: InferenceJobModel| j@)
}

pub open spec fn ids_unique(s: Seq<JobView>) -> bool {
    forall|i: int, j: int| 0 <= i < s.len() && 0 <= j < s.len() && i != j ==> s[i].id != s[j].id
}

pub open spec fn ordered(s: Seq<JobView>) -> bool {
    forall|i: int, j: int| 0 <= i <= j < s.len() ==> s[i].created_at <= s[j].created_at
}

pub open spec fn has_id(s: Seq<JobView>, id: Seq<char>) -> bool {
    exists|i: int| 0 <= i < s.len() && s[i].id == id
}

pub open spec fn has_status(s: Seq<JobView>, id: Seq<char>, st: JobStatus) -> bool {
    exists|i: int| 0 <= i < s.len() && s[i].id == id && s[i].status == st
}

/// The record stored under `id`, if any.
pub open spec fn lookup(s: Seq<JobView>, id: Seq<char>) -> Option<JobView> {
    if has_id(s, id) {
        Some(s[choose|i: int| 0 <= i < s.len() && s[i].id == id])
    } else {
        None
    }
}

/// With distinct ids, a job is in status `st` exactly when the record
/// stored under its id has that status.
pub proof fn lemma_lookup_status(s: Seq<JobView>, id: Seq<char>, st: JobStatus)
    requires
        ids_unique(s),
    ensures
        has_status(s, id, st) <==> (lookup(s, id) matches Some(j) && j.status == st),
{
    if has_id(s, id) {
        let c = choose|i: int| 0 <= i < s.len() && s[i].id == id;
        assert forall|i: int| 0 <= i < s.len() && s[i].id == id implies i == c by {}
    }
}

/// A record after a guarded update wrote it.
pub open spec fn rewritten(
    j: JobView,
    new_status: JobStatus,
    payload: Option<Seq<u8>>,
    response: Option<Seq<u8>>,
) -> JobView {
    JobView {
        status: new_status,
        payload: match payload {
            Some(p) => p,
            None => j.payload,
        },
        response: match response {
            Some(r) => Some(r),
            None => j.response,
        },
        ..j
    }
}

/// The table after a guarded update: the row under `id` is rewritten only
/// when its status is `expected`.
pub open spec fn guarded_update(
    s: Seq<JobView>,
    id: Seq<char>,
    expected: JobStatus,
    new_status: JobStatus,
    payload: Option<Seq<u8>>,
    response: Option<Seq<u8>>,
) -> Seq<JobView> {
    Seq::new(
        s.len(),
        |i: int|
            if s[i].id == id && s[i].status == expected {
                rewritten(s[i], new_status, payload, response)
            } else {
                s[i]
            },
    )
}

/// The number of rows a guarded update touches.
pub open spec fn guarded_count(s: Seq<JobView>, id: Seq<char>, expected: JobStatus) -> nat {
    if has_status(s, id, expected) {
        1
    } else {
        0
    }
}

pub open spec fn status_matches(j: JobView, filter: Option<JobStatus>) -> bool {
    match filter {
        Some(st) => j.status == st,
        None => true,
    }
}

/// The records that pass the status filter, in table order.
pub open spec fn matching(s: Seq<JobView>, filter: Option<JobStatus>) -> Seq<JobView>
    decreases s.len(),
{
    if s.len() == 0 {
        Seq::empty()
    } else {
        let rest = matching(s.drop_last(), filter);
        if status_matches(s.last(), filter) {
            rest.push(s.last())
        } else {
            rest
        }
    }
}

/// At most `limit` items of `m`, starting at position `offset`.
pub open spec fn window(m: Seq<JobView>, offset: int, limit: int) -> Seq<JobView> {
    let lo = if offset < m.len() {
        offset
    } else {
        m.len() as int
    };
    let hi = if offset + limit < m.len() {
        offset + limit
    } else {
        m.len() as int
    };
    m.subrange(lo, hi)
}

/// One page of the listing: matching records ordered by creation time.
pub open spec fn page(s: Seq<JobView>, filter: Option<JobStatus>, offset: int, limit: int) -> Seq<
    JobView,
> {
    window(matching(s, filter), offset, limit)
}

/// Upper bound on id draws before creation gives up.
pub const MAX_ID_ATTEMPTS: u32 = 5;

/// The creation time given to a job inserted at `now`: never older than the
/// newest stored one.
pub open spec fn stamp(s: Seq<JobView>, now: i64) -> int {
    if s.len() > 0 && s.last().created_at > now {
        s.last().created_at
    } else {
        now as int
    }
}

/// How many of `n` candidate ids creation looks at.
pub open spec fn considered(n: int) -> int {
    if n < MAX_ID_ATTEMPTS {
        n
    } else {
        MAX_ID_ATTEMPTS as int
    }
}

/// `after` is `before` with one fresh job appended under `id`, holding `payload`.
pub open spec fn created(before: Seq<JobView>, after: Seq<JobView>, id: Seq<char>, payload: Seq<u8>) -> bool {
    &&& !has_id(before, id)
    &&& after.len() == before.len() + 1
    &&& after.drop_last() == before
    &&& after.last() == fresh_job(id, payload, after.last().created_at)
}

impl View for JobStore {
    type V = Seq<JobView>;

    closed spec fn view(&self) -> Seq<JobView> {
        views(self.rows@)
    }
}

impl JobStore {
    pub open spec fn well_formed(&self) -> bool {
        ids_unique(self@) && ordered(self@)
    }

    /// An empty table.
    pub fn new() -> (r: JobStore)
        ensures
            r.well_formed(),
            r@ == Seq::<JobView>::empty(),
    {
        let r = JobStore { rows: Vec::new() };
        assert(r@ =~= Seq::<JobView>::empty());
        r
    }

    pub fn len(&self) -> (r: usize)
        ensures
            r == self@.len(),
    {
        self.rows.len()
    }

    /// The position of the row under `id`.
    fn position(&self, id: &String) -> (r: Option<usize>)
        requires
            self.well_formed(),
        ensures
            r is None <==> !has_id(self@, id@),
            r matches Some(i) ==> i < self@.len() && self@[i as int].id == id@,
    {
        let mut i: usize = 0;
        while i < self.rows.len()
            invariant
                i <= self.rows.len(),
                forall|k: int| 0 <= k < i ==> self@[k].id != id@,
            decreases self.rows.len() - i,
        {
            if self.rows[i].job_id == *id {
                return Some(i);
            }
            i = i + 1;
        }
        None
    }

    /// Whether a job is stored under `id`.
    pub fn contains(&self, id: &String) -> (r: bool)
        requires
            self.well_formed(),
        ensures
            r == has_id(self@, id@),
    {
        self.position(id).is_some()
    }

    /// The job stored under `id`.
    pub fn fetch(&self, id: &String) -> (r: Result<InferenceJobModel, JobError>)
        requires
            self.well_formed(),
        ensures
            r is Err <==> lookup(self@, id@) is None,
            r matches Err(e) ==> e == JobError::NotFound,
            r matches Ok(j) ==> lookup(self@, id@) == Some(j@),
    {
        match self.position(id) {
            Some(i) => {
                let j = self.rows[i].duplicate();
                let ghost c = choose|k: int| 0 <= k < self@.len() && self@[k].id == id@;
                assert(c == i as int);
                Ok(j)
            },
            None => Err(JobError::NotFound),
        }
    }

    /// Inserts a new job under `id`, waiting for inference. The creation time
    /// is `now`, raised to the newest stored creation time if the clock went
    /// back, so that table order stays creation order.
    pub fn insert_job(&mut self, id: String, payload: Vec<u8>, now: i64) -> (r: Result<(), JobError>)
        requires
            old(self).well_formed(),
        ensures
            final(self).well_formed(),
            r is Err <==> has_id(old(self)@, id@),
            r matches Err(e) ==> e == JobError::DuplicateId,
            r is Err ==> final(self)@ == old(self)@,
            r is Ok ==> final(self)@ == old(self)@.push(fresh_job(id@, payload@, stamp(old(self)@, now))),
    {
        if self.contains(&id) {
            return Err(JobError::DuplicateId);
        }
        let n = self.rows.len();
        let created_at = if n > 0 && self.rows[n - 1].created_at > now {
            self.rows[n - 1].created_at
        } else {
            now
        };
        let row = InferenceJobModel {
            job_id: id,
            status: JobStatus::Bot,
            payload,
            response: None,
            created_at,
        };
        let ghost before = self@;
        self.rows.push(row);
        assert(self@ =~= before.push(row@));
        Ok(())
    }

    /// Rewrites the job under `id` only if its status is `expected`; returns
    /// the number of rows written.
    pub fn update_if(
        &mut self,
        id: &String,
        expected: JobStatus,
        new_status: JobStatus,
        payload: Option<Vec<u8>>,
        response: Option<Vec<u8>>,
    ) -> (count: u64)
        requires
            old(self).well_formed(),
        ensures
            final(self).well_formed(),
            final(self)@ == guarded_update(
                old(self)@,
                id@,
                expected,
                new_status,
                opt_bytes(payload),
                opt_bytes(response),
            ),
            count == guarded_count(old(self)@, id@, expected),
    {
        let ghost before = self@;
        let ghost target = guarded_update(
            before,
            id@,
            expected,
            new_status,
            opt_bytes(payload),
            opt_bytes(response),
        );
        match self.position(id) {
            None => {
                assert(self@ =~= target);
                0
            },
            Some(i) => {
                if self.rows[i].status != expected {
                    assert(self@ =~= target);
                    return 0;
                }
                let old_row = self.rows[i].duplicate();
                let new_payload = match payload {
                    Some(p) => p,
                    None => old_row.payload,
                };
                let new_response = match response {
                    Some(r) => Some(r),
                    None => old_row.response,
                };
                let row = InferenceJobModel {
                    job_id: old_row.job_id,
                    status: new_status,
                    payload: new_payload,
                    response: new_response,
                    created_at: old_row.created_at,
                };
                self.rows.set(i, row);
                assert(self@ =~= target);
                1
            },
        }
    }
    /// One page of jobs passing `filter`, in creation order: at most `limit`
    /// of them, after skipping the first `offset`.
    pub fn list(&self, filter: Option<JobStatus>, limit: u64, offset: u64) -> (r: Vec<
        InferenceJobModel,
    >)
        requires
            self.well_formed(),
        ensures
            views(r@) == page(self@, filter, offset as int, limit as int),
    {
        let mut out: Vec<InferenceJobModel> = Vec::new();
        let mut seen: u64 = 0;
        let mut i: usize = 0;
        while i < self.rows.len()
            invariant
                i <= self.rows.len(),
                seen as int == matching(self@.take(i as int), filter).len(),
                seen <= i,
                views(out@) == window(
                    matching(self@.take(i as int), filter),
                    offset as int,
                    limit as int,
                ),
            decreases self.rows.len() - i,
        {
            let ghost pre = self@.take(i as int);
            let ghost post = self@.take(i + 1);
            assert(post.drop_last() =~= pre);
            assert(post.last() == self@[i as int]);
            let st = self.rows[i].status;
            let passes = match filter {
                Some(f) => st == f,
                None => true,
            };
            if passes {
                if seen >= offset && seen - offset < limit {
                    let ghost before = out@;
                    out.push(self.rows[i].duplicate());
                    assert(views(out@) =~= views(before).push(self@[i as int]));
                }
                seen = seen + 1;
            }
            i = i + 1;
            assert(views(out@) =~= window(matching(post, filter), offset as int, limit as int));
        }
        assert(self@.take(i as int) =~= self@);
        out
    }

    /// Moves the job under `id` from `from` to `to`, writing the given payload
    /// and response, provided the table admits the move and the job is still
    /// in `from`.
    pub fn apply_transition(
        &mut self,
        id: &String,
        from: JobStatus,
        to: JobStatus,
        payload: Option<Vec<u8>>,
        response: Option<Vec<u8>>,
    ) -> (r: Result<(), JobError>)
        requires
            old(self).well_formed(),
        ensures
            final(self).well_formed(),
            r is Ok <==> transition_allowed(from, to) && has_status(old(self)@, id@, from),
            r is Ok ==> final(self)@ == guarded_update(
                old(self)@,
                id@,
                from,
                to,
                opt_bytes(payload),
                opt_bytes(response),
            ),
            r is Err ==> final(self)@ == old(self)@,
            r == Err::<(), JobError>(JobError::NotFound) <==> transition_allowed(from, to)
                && !has_id(old(self)@, id@),
            r == Err::<(), JobError>(JobError::Conflict) <==> !transition_allowed(from, to) || (
            has_id(old(self)@, id@) && !has_status(old(self)@, id@, from)),
    {
        if !from.can_transition_to(to) {
            return Err(JobError::Conflict);
        }
        let ghost before = self@;
        let count = self.update_if(id, from, to, payload, response);
        if count == 0 {
            assert(self@ =~= before);
            if self.contains(id) {
                Err(JobError::Conflict)
            } else {
                Err(JobError::NotFound)
            }
        } else {
            Ok(())
        }
    }
    /// Creates a job holding `payload` under the first of the candidate ids
    /// that is free, looking at no more than `MAX_ID_ATTEMPTS` of them, and
    /// stamped as `insert_job` stamps it.
    pub fn create_from_ids(&mut self, ids: &Vec<String>, payload: Vec<u8>, now: i64) -> (r: Result<
        String,
        JobError,
    >)
        requires
            old(self).well_formed(),
        ensures
            final(self).well_formed(),
            r is Err <==> forall|k: int|
                0 <= k < considered(ids@.len() as int) ==> has_id(old(self)@, #[trigger] ids@[k]@),
            r matches Err(e) ==> e == JobError::JobCreation && final(self)@ == old(self)@,
            r matches Ok(id) ==> exists|k: int|
                0 <= k < considered(ids@.len() as int) && id@ == (#[trigger] ids@[k])@ && !has_id(
                    old(self)@,
                    id@,
                ) && forall|j: int| 0 <= j < k ==> has_id(old(self)@, (#[trigger] ids@[j])@),
            r matches Ok(id) ==> final(self)@ == old(self)@.push(
                fresh_job(id@, payload@, stamp(old(self)@, now)),
            ),
    {
        let mut k: usize = 0;
        while k < ids.len() && k < MAX_ID_ATTEMPTS as usize
            invariant
                self.well_formed(),
                self@ == old(self)@,
                k <= considered(ids@.len() as int),
                forall|j: int| 0 <= j < k ==> has_id(old(self)@, (#[trigger] ids@[j])@),
            decreases ids.len() - k,
        {
            if !self.contains(&ids[k]) {
                let id = ids[k].clone();
                let _ = self.insert_job(id.clone(), payload, now);
                return Ok(id);
            }
            k = k + 1;
        }
        Err(JobError::JobCreation)
    }

    /// Creates a job holding `payload` under a freshly drawn id, drawing again
    /// while the id is taken, at most `MAX_ID_ATTEMPTS` times. Creation cannot
    /// fail while no stored id has the shape of a drawn one.
    pub fn create_job(&mut self, payload: Vec<u8>) -> (r: Result<String, JobError>)
        requires
            old(self).well_formed(),
        ensures
            final(self).well_formed(),
            r matches Ok(id) ==> valid_job_id(id@) && created(
                old(self)@,
                final(self)@,
                id@,
                payload@,
            ),
            r matches Err(e) ==> e == JobError::JobCreation && final(self)@ == old(self)@,
            (forall|i: int| 0 <= i < old(self)@.len() ==> !valid_job_id(#[trigger] old(self)@[i].id))
                ==> r is Ok,
    {
        let mut ids: Vec<String> = Vec::new();
        let mut k: u32 = 0;
        while k < MAX_ID_ATTEMPTS
            invariant
                ids@.len() == k,
                k <= MAX_ID_ATTEMPTS,
                forall|j: int| 0 <= j < ids@.len() ==> valid_job_id((#[trigger] ids@[j])@),
            decreases MAX_ID_ATTEMPTS - k,
        {
            ids.push(new_job_id());
            k = k + 1;
        }
        let now = now_micros();
        let ghost before = self@;
        let r = self.create_from_ids(&ids, payload, now);
        proof {
            if forall|i: int| 0 <= i < before.len() ==> !valid_job_id(#[trigger] before[i].id) {
                assert(valid_job_id(ids@[0]@));
                assert(!has_id(before, ids@[0]@));
            }
            if r is Ok {
                assert(self@.drop_last() =~= before);
            }
        }
        r
    }

    /// Appends a record read back from durable storage, as it was stored.
    /// Refused when its id is taken, or when it is older than the newest
    /// record, which would break creation order.
    pub fn restore_job(&mut self, row: InferenceJobModel) -> (r: Result<(), JobError>)
        requires
            old(self).well_formed(),
        ensures
            final(self).well_formed(),
            r is Ok <==> !has_id(old(self)@, row@.id) && (old(self)@.len() == 0
                || old(self)@.last().created_at <= row@.created_at),
            r == Err::<(), JobError>(JobError::DuplicateId) <==> has_id(old(self)@, row@.id),
            r is Ok ==> final(self)@ == old(self)@.push(row@),
            r is Err ==> final(self)@ == old(self)@,
            r matches Err(e) ==> e == JobError::DuplicateId || e == JobError::Conflict,
    {
        if self.contains(&row.job_id) {
            return Err(JobError::DuplicateId);
        }
        let n = self.rows.len();
        if n > 0 && self.rows[n - 1].created_at > row.created_at {
            return Err(JobError::Conflict);
        }
        let ghost before = self@;
        let ghost v = row@;
        self.rows.push(row);
        assert(self@ =~= before.push(v));
        Ok(())
    }
}

} // verus!
