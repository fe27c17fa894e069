use chrono::{DateTime, NaiveDateTime};
use verify_dispatch::error::{Fault, StoreError, WorkerError};
use verify_dispatch::job::{JobRecord, JobStatus};
use verify_dispatch::request::VerificationRequest;
use verify_dispatch::service::complete;
use verify_dispatch::store::JobStore;
use verify_dispatch::verdict::VerifiedResult;

fn at(seconds: i64) -> NaiveDateTime {
    DateTime::from_timestamp(seconds, 0).unwrap().naive_utc()
}

fn work(program: &str) -> VerificationRequest {
    VerificationRequest {
        repository: "https://example.org/repo".to_string(),
        commit_hash: Some("c0ffee".to_string()),
        program_id: program.to_string(),
        lib_name: None,
        bpf_flag: None,
        base_image: None,
        mount_path: None,
        cargo_args: None,
    }
}

fn job(id: &str, program: &str, seconds: i64, status: JobStatus) -> JobRecord {
    JobRecord { id: id.to_string(), request: work(program), created_at: at(seconds), status }
}

fn verdict(program: &str, is_verified: bool, hash: &str) -> VerifiedResult {
    VerifiedResult {
        program_id: program.to_string(),
        is_verified,
        on_chain_hash: hash.to_string(),
        executable_hash: hash.to_string(),
    }
}

#[test]
fn empty_store_holds_nothing() {
    let store = JobStore::new();
    assert_eq!(store.job_count(), 0);
    assert_eq!(store.find_by_request_fields(&work("A")), None);
    assert_eq!(store.job(&"x".to_string()), None);
    assert_eq!(store.get_verified_result(&"A".to_string()), Ok(None));
}

#[test]
fn insert_refuses_a_taken_identifier() {
    let mut store = JobStore::new();
    assert_eq!(store.insert(job("one", "A", 1, JobStatus::InProgress)), Ok(()));
    assert_eq!(
        store.insert(job("one", "B", 2, JobStatus::InProgress)),
        Err(StoreError::DuplicateId)
    );
    assert_eq!(store.job_count(), 1);
    assert_eq!(store.job(&"one".to_string()), Some(job("one", "A", 1, JobStatus::InProgress)));
    assert_eq!(store.find_by_request_fields(&work("B")), None);
}

#[test]
fn find_returns_the_most_recent_match() {
    let mut store = JobStore::new();
    assert_eq!(store.insert(job("one", "A", 1, JobStatus::Failed)), Ok(()));
    assert_eq!(store.insert(job("two", "B", 2, JobStatus::InProgress)), Ok(()));
    assert_eq!(store.insert(job("three", "A", 3, JobStatus::Completed)), Ok(()));
    assert_eq!(store.insert(job("four", "C", 4, JobStatus::InProgress)), Ok(()));

    assert_eq!(
        store.find_by_request_fields(&work("A")),
        Some(job("three", "A", 3, JobStatus::Completed))
    );
    assert_eq!(
        store.find_by_request_fields(&work("B")),
        Some(job("two", "B", 2, JobStatus::InProgress))
    );
    assert_eq!(store.find_by_request_fields(&work("D")), None);
}

#[test]
fn find_compares_every_field() {
    let mut store = JobStore::new();
    assert_eq!(store.insert(job("one", "A", 1, JobStatus::InProgress)), Ok(()));

    let mut other = work("A");
    other.cargo_args = Some(vec![]);
    assert_eq!(store.find_by_request_fields(&other), None);

    let mut other = work("A");
    other.commit_hash = Some("c0ffef".to_string());
    assert_eq!(store.find_by_request_fields(&other), None);

    let mut other = work("A");
    other.commit_hash = None;
    assert_eq!(store.find_by_request_fields(&other), None);
}

#[test]
fn status_moves_once_from_in_progress_to_an_end() {
    let mut store = JobStore::new();
    assert_eq!(store.insert(job("one", "A", 1, JobStatus::InProgress)), Ok(()));
    assert_eq!(store.insert(job("two", "B", 2, JobStatus::InProgress)), Ok(()));

    assert_eq!(store.update_status(&"one".to_string(), JobStatus::Completed), Ok(()));
    assert_eq!(store.job(&"one".to_string()), Some(job("one", "A", 1, JobStatus::Completed)));
    assert_eq!(store.job(&"two".to_string()), Some(job("two", "B", 2, JobStatus::InProgress)));

    assert_eq!(
        store.update_status(&"one".to_string(), JobStatus::Failed),
        Err(StoreError::InvalidTransition)
    );
    assert_eq!(
        store.update_status(&"one".to_string(), JobStatus::InProgress),
        Err(StoreError::InvalidTransition)
    );
    assert_eq!(store.job(&"one".to_string()), Some(job("one", "A", 1, JobStatus::Completed)));

    assert_eq!(store.update_status(&"two".to_string(), JobStatus::Failed), Ok(()));
    assert_eq!(store.job(&"two".to_string()), Some(job("two", "B", 2, JobStatus::Failed)));
    assert_eq!(store.job_count(), 2);
}

#[test]
fn status_of_a_running_job_cannot_be_set_to_in_progress() {
    let mut store = JobStore::new();
    assert_eq!(store.insert(job("one", "A", 1, JobStatus::InProgress)), Ok(()));
    assert_eq!(
        store.update_status(&"one".to_string(), JobStatus::InProgress),
        Err(StoreError::InvalidTransition)
    );
    assert_eq!(store.job(&"one".to_string()), Some(job("one", "A", 1, JobStatus::InProgress)));
}

#[test]
fn status_of_an_unknown_job_cannot_be_set() {
    let mut store = JobStore::new();
    assert_eq!(
        store.update_status(&"nobody".to_string(), JobStatus::Completed),
        Err(StoreError::UnknownJob)
    );
    assert_eq!(store.job_count(), 0);
}

#[test]
fn later_verdict_for_a_program_replaces_the_earlier() {
    let mut store = JobStore::new();
    assert_eq!(store.upsert_verified_result(verdict("A", false, "h1")), Ok(()));
    assert_eq!(store.upsert_verified_result(verdict("B", true, "h2")), Ok(()));
    assert_eq!(store.upsert_verified_result(verdict("A", true, "h3")), Ok(()));

    assert_eq!(store.get_verified_result(&"A".to_string()), Ok(Some(verdict("A", true, "h3"))));
    assert_eq!(store.get_verified_result(&"B".to_string()), Ok(Some(verdict("B", true, "h2"))));
    assert_eq!(store.get_verified_result(&"C".to_string()), Ok(None));
}

#[test]
fn completing_an_unknown_job_keeps_the_verdict_and_notes_the_fault() {
    let mut store = JobStore::new();
    let faults = complete(&mut store, &"ghost".to_string(), Ok(verdict("A", true, "h")));
    assert_eq!(faults, vec![Fault::Persistence]);
    assert_eq!(store.job_count(), 0);
    assert_eq!(store.get_verified_result(&"A".to_string()), Ok(Some(verdict("A", true, "h"))));

    let faults = complete(
        &mut store,
        &"ghost".to_string(),
        Err(WorkerError { reason: "gone".to_string() }),
    );
    assert_eq!(faults, vec![Fault::Worker, Fault::Persistence]);
}

#[test]
fn completing_a_finished_job_does_not_move_it() {
    let mut store = JobStore::new();
    assert_eq!(store.insert(job("one", "A", 1, JobStatus::InProgress)), Ok(()));
    assert!(complete(&mut store, &"one".to_string(), Ok(verdict("A", true, "h1"))).is_empty());
    assert_eq!(store.job(&"one".to_string()).unwrap().status, JobStatus::Completed);

    let faults = complete(
        &mut store,
        &"one".to_string(),
        Err(WorkerError { reason: "late".to_string() }),
    );
    assert_eq!(faults, vec![Fault::Worker, Fault::Persistence]);
    assert_eq!(store.job(&"one".to_string()), Some(job("one", "A", 1, JobStatus::Completed)));
    assert_eq!(store.get_verified_result(&"A".to_string()), Ok(Some(verdict("A", true, "h1"))));
}
