use inference_jobs::dispatch::{job_message, message_job_id, DeliveryPlan};
use inference_jobs::error::JobError;
use inference_jobs::job::{InferenceJobModel, Job};
use inference_jobs::query::QueryJobs;
use inference_jobs::review::UpdateJob;
use inference_jobs::sources::{new_job_id, JOB_ID_LEN};
use inference_jobs::status::JobStatus;
use inference_jobs::store::{JobStore, MAX_ID_ATTEMPTS};

fn id(s: &str) -> String {
    s.to_string()
}

fn human_job(store: &mut JobStore, name: &str, at: i64) {
    store.insert_job(id(name), b"{}".to_vec(), at).unwrap();
    assert_eq!(store.update_if(&id(name), JobStatus::Bot, JobStatus::Human, None, Some(b"r".to_vec())), 1);
}

#[test]
fn transition_table_is_exact() {
    let (bot, human, success, fail) = (JobStatus::Bot, JobStatus::Human, JobStatus::Success, JobStatus::Fail);
    let all = [bot, human, success, fail];
    let allowed = [(bot, human), (human, bot), (human, success), (human, fail), (bot, fail)];
    for a in all {
        for b in all {
            assert_eq!(a.can_transition_to(b), allowed.contains(&(a, b)), "{:?} -> {:?}", a, b);
        }
    }
}

#[test]
fn terminal_statuses() {
    assert!(JobStatus::Success.is_terminal());
    assert!(JobStatus::Fail.is_terminal());
    assert!(!JobStatus::Bot.is_terminal());
    assert!(!JobStatus::Human.is_terminal());
}

#[test]
fn status_names_are_lowercase() {
    assert_eq!(JobStatus::Bot.as_str(), "bot");
    assert_eq!(JobStatus::Human.as_str(), "human");
    assert_eq!(JobStatus::Success.as_str(), "success");
    assert_eq!(JobStatus::Fail.as_str(), "fail");
}

#[test]
fn error_http_status() {
    assert_eq!(JobError::NotFound.http_status(), 404);
    assert_eq!(JobError::InvalidQuery.http_status(), 500);
    assert_eq!(JobError::JobCreation.http_status(), 500);
    assert_eq!(JobError::Conflict.http_status(), 500);
    assert_eq!(JobError::Store.http_status(), 500);
}

#[test]
fn generated_ids_are_alphanumeric() {
    let a = new_job_id();
    assert_eq!(a.len(), JOB_ID_LEN);
    assert!(a.chars().all(|c| c.is_ascii_alphanumeric()));
    let job = Job::new(b"payload".to_vec());
    assert_eq!(job.id.len(), 8);
    assert!(job.id.chars().all(|c| c.is_ascii_alphanumeric()));
    assert_eq!(job.payload, b"payload".to_vec());
}

#[test]
fn created_ids_are_distinct() {
    let mut store = JobStore::new();
    let mut ids: Vec<String> = Vec::new();
    for i in 0..200u32 {
        let got = store.create_job(format!("{{\"n\":{}}}", i).into_bytes()).unwrap();
        assert!(!ids.contains(&got));
        ids.push(got);
    }
    assert_eq!(store.len(), 200);
}

#[test]
fn create_then_fetch_round_trip() {
    let mut store = JobStore::new();
    let payload = b"{\"prompt\":\"hi\"}".to_vec();
    let job_id = store.create_job(payload.clone()).unwrap();
    let job = store.fetch(&job_id).unwrap();
    assert_eq!(job.job_id, job_id);
    assert_eq!(job.status, JobStatus::Bot);
    assert_eq!(job.payload, payload);
    assert_eq!(job.response, None);
}

#[test]
fn fetch_missing_is_not_found() {
    let store = JobStore::new();
    assert_eq!(store.fetch(&id("nope")).unwrap_err(), JobError::NotFound);
}

#[test]
fn duplicate_insert_is_refused() {
    let mut store = JobStore::new();
    store.insert_job(id("abc"), b"1".to_vec(), 10).unwrap();
    assert_eq!(store.insert_job(id("abc"), b"2".to_vec(), 11), Err(JobError::DuplicateId));
    assert_eq!(store.len(), 1);
    assert_eq!(store.fetch(&id("abc")).unwrap().payload, b"1".to_vec());
}

#[test]
fn clock_going_back_keeps_creation_order() {
    let mut store = JobStore::new();
    store.insert_job(id("a"), b"1".to_vec(), 100).unwrap();
    store.insert_job(id("b"), b"2".to_vec(), 50).unwrap();
    assert_eq!(store.fetch(&id("b")).unwrap().created_at, 100);
}

#[test]
fn racing_guarded_updates_write_once() {
    let mut store = JobStore::new();
    let job_id = store.create_job(b"{}".to_vec()).unwrap();
    let first = store.update_if(&job_id, JobStatus::Bot, JobStatus::Human, None, Some(b"one".to_vec()));
    let second = store.update_if(&job_id, JobStatus::Bot, JobStatus::Human, None, Some(b"two".to_vec()));
    assert_eq!((first, second), (1, 0));
    assert_eq!(store.fetch(&job_id).unwrap().response, Some(b"one".to_vec()));
}

#[test]
fn apply_transition_errors() {
    let mut store = JobStore::new();
    store.insert_job(id("j"), b"{}".to_vec(), 1).unwrap();
    assert_eq!(store.apply_transition(&id("j"), JobStatus::Bot, JobStatus::Success, None, None), Err(JobError::Conflict));
    assert_eq!(store.apply_transition(&id("j"), JobStatus::Human, JobStatus::Bot, None, None), Err(JobError::Conflict));
    assert_eq!(store.apply_transition(&id("x"), JobStatus::Bot, JobStatus::Fail, None, None), Err(JobError::NotFound));
    assert_eq!(store.apply_transition(&id("j"), JobStatus::Bot, JobStatus::Fail, None, None), Ok(()));
    assert_eq!(store.fetch(&id("j")).unwrap().status, JobStatus::Fail);
}

#[test]
fn review_of_finished_job_is_not_found() {
    let mut store = JobStore::new();
    human_job(&mut store, "j", 1);
    let approve = UpdateJob { id: id("j"), status: JobStatus::Success, payload: None, response: Some(b"ok".to_vec()) };
    assert_eq!(store.review_job(approve), Ok(None));
    let again = UpdateJob { id: id("j"), status: JobStatus::Bot, payload: None, response: None };
    assert_eq!(store.review_job(again), Err(JobError::NotFound));
    let job = store.fetch(&id("j")).unwrap();
    assert_eq!(job.status, JobStatus::Success);
    assert_eq!(job.response, Some(b"ok".to_vec()));
}

#[test]
fn review_back_to_bot_republishes() {
    let mut store = JobStore::new();
    human_job(&mut store, "j", 1);
    let resend = UpdateJob { id: id("j"), status: JobStatus::Bot, payload: Some(b"{\"v\":2}".to_vec()), response: None };
    assert_eq!(store.review_job(resend), Ok(Some(id("j"))));
    let job = store.fetch(&id("j")).unwrap();
    assert_eq!(job.status, JobStatus::Bot);
    assert_eq!(job.payload, b"{\"v\":2}".to_vec());
    assert_eq!(job.response, Some(b"r".to_vec()));
}

#[test]
fn review_to_human_is_conflict() {
    let mut store = JobStore::new();
    human_job(&mut store, "j", 1);
    let same = UpdateJob { id: id("j"), status: JobStatus::Human, payload: None, response: None };
    assert_eq!(store.review_job(same), Err(JobError::Conflict));
}

#[test]
fn review_of_unknown_job_is_not_found() {
    let mut store = JobStore::new();
    let r = UpdateJob { id: id("zz"), status: JobStatus::Fail, payload: None, response: None };
    assert_eq!(store.review_job(r), Err(JobError::NotFound));
}

#[test]
fn human_pages_are_disjoint_and_contiguous() {
    let mut store = JobStore::new();
    for (i, name) in ["a", "b", "c", "d", "e", "f"].iter().enumerate() {
        store.insert_job(id(name), b"{}".to_vec(), 10 * i as i64).unwrap();
    }
    for name in ["b", "c", "e", "f", "a"] {
        assert_eq!(store.update_if(&id(name), JobStatus::Bot, JobStatus::Human, None, None), 1);
    }
    let p1 = store.list(Some(JobStatus::Human), 2, 0);
    let p2 = store.list(Some(JobStatus::Human), 2, 2);
    let p3 = store.list(Some(JobStatus::Human), 2, 4);
    let names = |v: &Vec<InferenceJobModel>| v.iter().map(|j| j.job_id.clone()).collect::<Vec<_>>();
    assert_eq!(names(&p1), vec![id("a"), id("b")]);
    assert_eq!(names(&p2), vec![id("c"), id("e")]);
    assert_eq!(names(&p3), vec![id("f")]);
    let all = store.list(None, 100, 0);
    assert_eq!(all.len(), 6);
    assert!(all.windows(2).all(|w| w[0].created_at <= w[1].created_at));
}

#[test]
fn list_jobs_checks_the_window() {
    let mut store = JobStore::new();
    store.insert_job(id("a"), b"{}".to_vec(), 1).unwrap();
    let bad = QueryJobs { offset: -1, limit: 5, status: None };
    assert_eq!(store.list_jobs(&bad).unwrap_err(), JobError::InvalidQuery);
    let bad_limit = QueryJobs { offset: 0, limit: -5, status: None };
    assert_eq!(store.list_jobs(&bad_limit).unwrap_err(), JobError::InvalidQuery);
    assert_eq!(store.list_jobs(&QueryJobs::new(0)).unwrap().len(), 0);
    assert_eq!(store.list_jobs(&QueryJobs::new(3)).unwrap().len(), 1);
    let bots = QueryJobs { offset: 0, limit: 3, status: Some(JobStatus::Human) };
    assert_eq!(store.list_jobs(&bots).unwrap().len(), 0);
}

#[test]
fn message_carries_the_id() {
    let msg = job_message(&id("Ab3xYz90"));
    assert_eq!(msg, b"Ab3xYz90".to_vec());
    assert_eq!(message_job_id(msg), Some(id("Ab3xYz90")));
    assert_eq!(message_job_id(vec![0xff, 0xfe]), None);
}

#[test]
fn delivery_of_waiting_job_is_inferred() {
    let mut store = JobStore::new();
    store.insert_job(id("j1"), b"{\"q\":1}".to_vec(), 1).unwrap();
    match store.plan_delivery(job_message(&id("j1"))) {
        DeliveryPlan::Infer { job_id, payload } => {
            assert_eq!(job_id, id("j1"));
            assert_eq!(payload, b"{\"q\":1}".to_vec());
        }
        DeliveryPlan::Skip => panic!("expected inference"),
    }
    assert!(matches!(store.plan_delivery(job_message(&id("other"))), DeliveryPlan::Skip));
    assert!(matches!(store.plan_delivery(vec![0xc3]), DeliveryPlan::Skip));
}

#[test]
fn failed_inference_leaves_job_waiting() {
    let mut store = JobStore::new();
    store.insert_job(id("j"), b"{}".to_vec(), 1).unwrap();
    assert!(!store.finish_delivery(&id("j"), Err(JobError::Upstream)));
    let job = store.fetch(&id("j")).unwrap();
    assert_eq!(job.status, JobStatus::Bot);
    assert_eq!(job.response, None);
}

#[test]
fn redelivery_after_finish_changes_nothing() {
    let mut store = JobStore::new();
    store.insert_job(id("j"), b"{}".to_vec(), 1).unwrap();
    assert!(store.finish_delivery(&id("j"), Ok(b"first".to_vec())));
    // the acknowledgement was lost: the message comes again
    assert!(matches!(store.plan_delivery(job_message(&id("j"))), DeliveryPlan::Skip));
    assert!(!store.finish_delivery(&id("j"), Ok(b"second".to_vec())));
    let job = store.fetch(&id("j")).unwrap();
    assert_eq!(job.status, JobStatus::Human);
    assert_eq!(job.response, Some(b"first".to_vec()));
}

#[test]
fn redelivery_before_finish_runs_once() {
    let mut store = JobStore::new();
    store.insert_job(id("j"), b"{}".to_vec(), 1).unwrap();
    // first attempt called the endpoint, then crashed before writing
    assert!(matches!(store.plan_delivery(job_message(&id("j"))), DeliveryPlan::Infer { .. }));
    assert!(matches!(store.plan_delivery(job_message(&id("j"))), DeliveryPlan::Infer { .. }));
    assert!(store.finish_delivery(&id("j"), Ok(b"again".to_vec())));
    let job = store.fetch(&id("j")).unwrap();
    assert_eq!(job.status, JobStatus::Human);
    assert_eq!(job.response, Some(b"again".to_vec()));
}

#[test]
fn restore_keeps_rows_as_stored() {
    let mut store = JobStore::new();
    let row = |name: &str, status: JobStatus, at: i64| InferenceJobModel {
        job_id: id(name),
        status,
        payload: b"{}".to_vec(),
        response: Some(b"\"x\"".to_vec()),
        created_at: at,
    };
    assert_eq!(store.restore_job(row("a", JobStatus::Human, 5)), Ok(()));
    assert_eq!(store.restore_job(row("a", JobStatus::Bot, 6)), Err(JobError::DuplicateId));
    assert_eq!(store.restore_job(row("b", JobStatus::Bot, 4)), Err(JobError::Conflict));
    assert_eq!(store.restore_job(row("b", JobStatus::Success, 5)), Ok(()));
    let b = store.fetch(&id("b")).unwrap();
    assert_eq!(b.status, JobStatus::Success);
    assert_eq!(b.response, Some(b"\"x\"".to_vec()));
    assert_eq!(b.created_at, 5);
    assert_eq!(store.len(), 2);
}

#[test]
fn failed_job_cannot_be_reviewed() {
    let mut store = JobStore::new();
    human_job(&mut store, "j", 1);
    let reject = UpdateJob { id: id("j"), status: JobStatus::Fail, payload: None, response: None };
    assert_eq!(store.review_job(reject), Ok(None));
    let retry = UpdateJob { id: id("j"), status: JobStatus::Success, payload: None, response: None };
    assert_eq!(store.review_job(retry), Err(JobError::NotFound));
    assert_eq!(store.fetch(&id("j")).unwrap().status, JobStatus::Fail);
}

#[test]
fn create_takes_first_free_candidate() {
    let mut store = JobStore::new();
    store.insert_job(id("taken1"), b"0".to_vec(), 1).unwrap();
    store.insert_job(id("taken2"), b"0".to_vec(), 2).unwrap();
    let ids = vec![id("taken1"), id("taken2"), id("free1"), id("free2")];
    assert_eq!(store.create_from_ids(&ids, b"{}".to_vec(), 3), Ok(id("free1")));
    let job = store.fetch(&id("free1")).unwrap();
    assert_eq!(job.status, JobStatus::Bot);
    assert_eq!(job.created_at, 3);
    assert!(!store.contains(&id("free2")));
    assert_eq!(store.fetch(&id("taken1")).unwrap().payload, b"0".to_vec());
}

#[test]
fn create_gives_up_after_bounded_draws() {
    let mut store = JobStore::new();
    let mut ids = Vec::new();
    for i in 0..MAX_ID_ATTEMPTS {
        let name = format!("t{}", i);
        store.insert_job(name.clone(), b"0".to_vec(), i as i64).unwrap();
        ids.push(name);
    }
    ids.push(id("free"));
    assert_eq!(store.create_from_ids(&ids, b"{}".to_vec(), 9), Err(JobError::JobCreation));
    assert_eq!(store.len(), MAX_ID_ATTEMPTS as usize);
    assert_eq!(store.create_from_ids(&Vec::new(), b"{}".to_vec(), 9), Err(JobError::JobCreation));
}

#[test]
fn create_succeeds_beside_foreign_ids() {
    let mut store = JobStore::new();
    store.insert_job(id("not-a-drawn-id"), b"0".to_vec(), 1).unwrap();
    for _ in 0..20 {
        assert!(store.create_job(b"{}".to_vec()).is_ok());
    }
    assert_eq!(store.len(), 21);
}

#[test]
fn second_verdict_is_not_found() {
    let mut store = JobStore::new();
    human_job(&mut store, "j", 1);
    let first = UpdateJob { id: id("j"), status: JobStatus::Bot, payload: None, response: Some(b"1".to_vec()) };
    let second = UpdateJob { id: id("j"), status: JobStatus::Human, payload: None, response: Some(b"2".to_vec()) };
    assert_eq!(store.review_job(first), Ok(Some(id("j"))));
    assert_eq!(store.review_job(second), Err(JobError::NotFound));
    let job = store.fetch(&id("j")).unwrap();
    assert_eq!(job.status, JobStatus::Bot);
    assert_eq!(job.response, Some(b"1".to_vec()));
}
