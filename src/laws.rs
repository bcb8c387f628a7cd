use vstd::prelude::*;
use vstd::utf8::{decode_utf8, encode_utf8, encode_utf8_decode_utf8, encode_utf8_valid_utf8, valid_utf8};

use crate::job::{fresh_job, JobView};
use crate::status::{terminal, JobStatus};
use crate::store::{
    created, guarded_count, guarded_update, has_status, ids_unique, lemma_lookup_status, lookup,
    matching, ordered, page, rewritten, status_matches,
};

verus! {

/// Every record that passes the filter is a record of the table, and the
/// filtered sequence keeps the table's order and distinct ids.
pub proof fn lemma_matching_sub(s: Seq<JobView>, filter: Option<JobStatus>)
    requires
        ordered(s),
        ids_unique(s),
    ensures
        ordered(matching(s, filter)),
        ids_unique(matching(s, filter)),
        forall|k: int|
            0 <= k < matching(s, filter).len() ==> exists|i: int|
                0 <= i < s.len() && #[trigger] matching(s, filter)[k] == s[i],
        forall|k: int| 0 <= k < matching(s, filter).len() ==> status_matches(#[trigger] matching(s, filter)[k], filter),
    decreases s.len(),
{
    if s.len() > 0 {
        let d = s.drop_last();
        lemma_matching_sub(d, filter);
        let rest = matching(d, filter);
        assert forall|k: int| 0 <= k < rest.len() implies exists|i: int|
            0 <= i < s.len() && #[trigger] rest[k] == s[i] by {
            let i = choose|i: int| 0 <= i < d.len() && rest[k] == d[i];
            assert(s[i] == d[i]);
        }
        if status_matches(s.last(), filter) {
            let m = rest.push(s.last());
            assert forall|k: int| 0 <= k < rest.len() implies #[trigger] m[k].created_at
                <= s.last().created_at && m[k].id != s.last().id by {
                let i = choose|i: int| 0 <= i < d.len() && rest[k] == d[i];
                assert(s[i] == d[i]);
                assert(s[s.len() - 1] == s.last());
            }
            assert forall|k: int| 0 <= k < m.len() implies exists|i: int|
                0 <= i < s.len() && #[trigger] m[k] == s[i] by {
                if k == rest.len() {
                    assert(m[k] == s[s.len() - 1]);
                } else {
                    assert(m[k] == rest[k]);
                }
            }
        }
    }
}

/// With distinct ids, the record at position `p` is the one stored under
/// its id.
pub proof fn lemma_lookup_at(s: Seq<JobView>, p: int)
    requires
        ids_unique(s),
        0 <= p < s.len(),
    ensures
        lookup(s, s[p].id) == Some(s[p]),
{
    let c = choose|i: int| 0 <= i < s.len() && s[i].id == s[p].id;
    assert(c == p);
}

/// `states` is a run of creations, one after another: step `k` creates the
/// job `ids[k]` holding `payloads[k]`.
pub open spec fn creation_run(
    states: Seq<Seq<JobView>>,
    ids: Seq<Seq<char>>,
    payloads: Seq<Seq<u8>>,
) -> bool {
    &&& states.len() == ids.len() + 1
    &&& payloads.len() == ids.len()
    &&& forall|k: int|
        0 <= k < ids.len() ==> created(states[k], states[k + 1], #[trigger] ids[k], payloads[k])
}

proof fn lemma_run_prefix(
    states: Seq<Seq<JobView>>,
    ids: Seq<Seq<char>>,
    payloads: Seq<Seq<u8>>,
    m: int,
)
    requires
        ids_unique(states[0]),
        creation_run(states, ids, payloads),
        0 <= m <= ids.len(),
    ensures
        states[m].len() == states[0].len() + m,
        ids_unique(states[m]),
        forall|i: int| 0 <= i < states[0].len() ==> #[trigger] states[m][i] == states[0][i],
        forall|i: int|
            0 <= i < m ==> (#[trigger] states[m][states[0].len() + i]) == fresh_job(
                ids[i],
                payloads[i],
                states[m][states[0].len() + i].created_at,
            ),
    decreases m,
{
    if m > 0 {
        lemma_run_prefix(states, ids, payloads, m - 1);
        let p = states[m - 1];
        let q = states[m];
        assert(created(p, q, ids[m - 1], payloads[m - 1]));
        assert forall|i: int| 0 <= i < p.len() implies q[i] == p[i] by {
            assert(q.drop_last()[i] == q[i]);
        }
        assert(q[p.len() as int] == q.last());
        assert forall|i: int, j: int| 0 <= i < q.len() && 0 <= j < q.len() && i != j implies q[i].id
            != q[j].id by {
            if i < p.len() && j < p.len() {
                assert(q[i] == p[i] && q[j] == p[j]);
            } else if i < p.len() {
                assert(q[i] == p[i]);
            } else {
                assert(q[j] == p[j]);
            }
        }
        assert forall|i: int| 0 <= i < states[0].len() implies #[trigger] q[i] == states[0][i] by {
            assert(q[i] == p[i]);
            assert(p[i] == states[0][i]);
        }
        assert forall|i: int| 0 <= i < m implies (#[trigger] q[states[0].len() + i]) == fresh_job(
            ids[i],
            payloads[i],
            q[states[0].len() + i].created_at,
        ) by {
            if i < m - 1 {
                assert(q[states[0].len() + i] == p[states[0].len() + i]);
            }
        }
    }
}

/// However many jobs are created one after another, each gets an id of its
/// own, each is stored with its payload, waiting for inference and without a
/// response, and no job stored before is touched.
pub proof fn created_ids_distinct(
    states: Seq<Seq<JobView>>,
    ids: Seq<Seq<char>>,
    payloads: Seq<Seq<u8>>,
)
    requires
        ids_unique(states[0]),
        creation_run(states, ids, payloads),
    ensures
        ids_unique(states.last()),
        forall|i: int, j: int| 0 <= i < ids.len() && 0 <= j < ids.len() && i != j ==> ids[i] != ids[j],
        forall|i: int|
            0 <= i < ids.len() ==> (lookup(states.last(), #[trigger] ids[i]) matches Some(j) && j.status
                == JobStatus::Bot && j.payload == payloads[i] && j.response is None),
        forall|i: int|
            0 <= i < states[0].len() ==> lookup(states.last(), (#[trigger] states[0][i]).id) == Some(
                states[0][i],
            ),
{
    let n = ids.len() as int;
    let n0 = states[0].len() as int;
    lemma_run_prefix(states, ids, payloads, n);
    let last = states[n];
    assert(states.last() == last);
    assert forall|i: int, j: int| 0 <= i < n && 0 <= j < n && i != j implies ids[i] != ids[j] by {
        assert(last[n0 + i].id == ids[i]);
        assert(last[n0 + j].id == ids[j]);
    }
    assert forall|i: int| 0 <= i < n implies (lookup(last, #[trigger] ids[i]) matches Some(j)
        && j.status == JobStatus::Bot && j.payload == payloads[i] && j.response is None) by {
        lemma_lookup_at(last, n0 + i);
        assert(last[n0 + i].id == ids[i]);
    }
    assert forall|i: int| 0 <= i < n0 implies lookup(last, (#[trigger] states[0][i]).id) == Some(
        states[0][i],
    ) by {
        lemma_lookup_at(last, i);
        assert(last[i] == states[0][i]);
    }
}

/// Of two verdicts racing on one job that waits for human feedback, the
/// first to land wins: the job then holds its verdict only, and no longer
/// waits, so the second is refused as not found.
pub proof fn one_verdict_wins(
    s: Seq<JobView>,
    id: Seq<char>,
    status: JobStatus,
    payload: Option<Seq<u8>>,
    response: Option<Seq<u8>>,
)
    requires
        ids_unique(s),
        has_status(s, id, JobStatus::Human),
        status != JobStatus::Human,
    ensures
        !has_status(guarded_update(s, id, JobStatus::Human, status, payload, response), id, JobStatus::Human),
        lookup(guarded_update(s, id, JobStatus::Human, status, payload, response), id) == Some(
            rewritten(lookup(s, id).unwrap(), status, payload, response),
        ),
{
    let t = guarded_update(s, id, JobStatus::Human, status, payload, response);
    let p = choose|i: int| 0 <= i < s.len() && s[i].id == id && s[i].status == JobStatus::Human;
    assert(ids_unique(t));
    lemma_lookup_at(s, p);
    lemma_lookup_at(t, p);
}

/// A job read back right after its creation waits for inference, holds the
/// submitted payload and has no response.
pub proof fn create_then_fetch(s0: Seq<JobView>, s1: Seq<JobView>, id: Seq<char>, payload: Seq<u8>)
    requires
        ids_unique(s0),
        created(s0, s1, id, payload),
    ensures
        lookup(s1, id) == Some(fresh_job(id, payload, s1.last().created_at)),
        lookup(s1, id) matches Some(j) && j.status == JobStatus::Bot && j.payload == payload
            && j.response is None,
{
    let n = s0.len() as int;
    assert(s1[n] == s1.last());
    assert forall|i: int| 0 <= i < s1.len() && s1[i].id == id implies i == n by {
        if i < n {
            assert(s1.drop_last()[i] == s1[i]);
        }
    }
}

/// Of two guarded updates racing on one row from the same expected status to
/// another, at most one writes, and exactly one does when the row was in the
/// expected status.
pub proof fn guarded_update_once(
    s: Seq<JobView>,
    id: Seq<char>,
    expected: JobStatus,
    new_status: JobStatus,
    p1: Option<Seq<u8>>,
    r1: Option<Seq<u8>>,
    p2: Option<Seq<u8>>,
    r2: Option<Seq<u8>>,
)
    requires
        ids_unique(s),
        expected != new_status,
    ensures
        guarded_count(s, id, expected) + guarded_count(
            guarded_update(s, id, expected, new_status, p1, r1),
            id,
            expected,
        ) == (if has_status(s, id, expected) {
            1int
        } else {
            0int
        }),
        guarded_update(guarded_update(s, id, expected, new_status, p1, r1), id, expected, new_status, p2, r2)
            == guarded_update(s, id, expected, new_status, p1, r1),
{
    let s1 = guarded_update(s, id, expected, new_status, p1, r1);
    assert(!has_status(s1, id, expected));
    assert(guarded_update(s1, id, expected, new_status, p2, r2) =~= s1);
}

/// A job that has reached a final status no longer waits for human feedback,
/// so a verdict on it is refused.
pub proof fn finished_job_not_reviewable(s: Seq<JobView>, id: Seq<char>)
    requires
        ids_unique(s),
        lookup(s, id) matches Some(j) && terminal(j.status),
    ensures
        !has_status(s, id, JobStatus::Human),
{
    lemma_lookup_status(s, id, JobStatus::Human);
}

/// Two consecutive pages of one listing join into the page that spans both:
/// they are disjoint, contiguous, and in creation order.
pub proof fn pages_contiguous(s: Seq<JobView>, filter: Option<JobStatus>, offset: int, limit: int)
    requires
        0 <= offset,
        0 <= limit,
        ordered(s),
        ids_unique(s),
    ensures
        page(s, filter, offset, limit) + page(
            s,
            filter,
            offset + limit,
            limit,
        ) == page(s, filter, offset, limit + limit),
        ordered(page(s, filter, offset, limit + limit)),
        ids_unique(page(s, filter, offset, limit + limit)),
        forall|i: int, j: int|
            #![trigger page(s, filter, offset, limit)[i], page(s, filter, offset + limit, limit)[j]]
            0 <= i < page(s, filter, offset, limit).len() && 0 <= j < page(s, filter, offset + limit, limit).len()
                ==> page(s, filter, offset, limit)[i].id != page(s, filter, offset + limit, limit)[j].id
                && page(s, filter, offset, limit)[i].created_at <= page(s, filter, offset + limit, limit)[j].created_at,
{
    lemma_matching_sub(s, filter);
    let m = matching(s, filter);
    let a = page(s, filter, offset, limit);
    let b = page(s, filter, offset + limit, limit);
    let c = page(s, filter, offset, limit + limit);
    assert(a + b =~= c);
    assert forall|i: int, j: int| 0 <= i < a.len() && 0 <= j < b.len() implies a[i].id != b[j].id
        && a[i].created_at <= b[j].created_at by {
        assert(c[i] == a[i]);
        assert(c[a.len() + j] == b[j]);
    }
}

/// Running the worker again on a message whose job it already finished (a
/// redelivery after a lost acknowledgement) changes nothing: the job keeps the
/// first response and no longer waits for inference.
pub proof fn redelivery_settles(s: Seq<JobView>, id: Seq<char>, r1: Seq<u8>, r2: Seq<u8>)
    requires
        ids_unique(s),
    ensures
        guarded_update(
            guarded_update(s, id, JobStatus::Bot, JobStatus::Human, None, Some(r1)),
            id,
            JobStatus::Bot,
            JobStatus::Human,
            None,
            Some(r2),
        ) == guarded_update(s, id, JobStatus::Bot, JobStatus::Human, None, Some(r1)),
        !has_status(
            guarded_update(s, id, JobStatus::Bot, JobStatus::Human, None, Some(r1)),
            id,
            JobStatus::Bot,
        ),
{
    guarded_update_once(s, id, JobStatus::Bot, JobStatus::Human, None, Some(r1), None, Some(r2));
}

/// A job id read back from its broker message is the id that was sent.
pub proof fn message_round_trip(id: Seq<char>)
    ensures
        valid_utf8(encode_utf8(id)),
        decode_utf8(encode_utf8(id)) == id,
{
    encode_utf8_valid_utf8(id);
    encode_utf8_decode_utf8(id);
}

} // verus!
