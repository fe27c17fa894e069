use chrono::{DateTime, NaiveDateTime};
use verify_dispatch::dispatch::{
    on_insert, on_result, on_worker_finished, AfterInsert, AfterLookup, Completion, InsertStep,
    LookupStep, ReportStep, Submission,
};
use verify_dispatch::error::{Fault, StoreError, WorkerError};
use verify_dispatch::job::{JobRecord, JobStatus};
use verify_dispatch::request::VerificationRequest;
use verify_dispatch::response::Response;
use verify_dispatch::verdict::VerifiedResult;

fn at(seconds: i64) -> NaiveDateTime {
    DateTime::from_timestamp(seconds, 0).unwrap().naive_utc()
}

fn work() -> VerificationRequest {
    VerificationRequest {
        repository: "https://example.org/repo".to_string(),
        commit_hash: None,
        program_id: "Prog".to_string(),
        lib_name: None,
        bpf_flag: Some(true),
        base_image: Some("image:1".to_string()),
        mount_path: Some("/work".to_string()),
        cargo_args: Some(vec!["--locked".to_string()]),
    }
}

fn submission() -> Submission {
    Submission { request: work(), tracking_id: "track".to_string(), created_at: at(42) }
}

fn earlier(status: JobStatus) -> JobRecord {
    JobRecord { id: "earlier".to_string(), request: work(), created_at: at(7), status }
}

fn verdict() -> VerifiedResult {
    VerifiedResult {
        program_id: "Prog".to_string(),
        is_verified: true,
        on_chain_hash: "aa".to_string(),
        executable_hash: "bb".to_string(),
    }
}

#[test]
fn lookup_without_a_match_asks_for_a_new_job() {
    let step = submission().on_lookup(Ok(None));
    assert_eq!(
        step,
        LookupStep {
            next: AfterLookup::Persist {
                job: JobRecord {
                    id: "track".to_string(),
                    request: work(),
                    created_at: at(42),
                    status: JobStatus::InProgress,
                },
            },
            fault: None,
        }
    );
}

#[test]
fn failed_lookup_goes_on_as_if_nothing_was_found() {
    let step = submission().on_lookup(Err(StoreError::Unavailable));
    assert_eq!(step.fault, Some(Fault::DuplicateLookup));
    assert_eq!(
        step.next,
        AfterLookup::Persist {
            job: JobRecord {
                id: "track".to_string(),
                request: work(),
                created_at: at(42),
                status: JobStatus::InProgress,
            },
        }
    );
}

#[test]
fn lookup_of_a_completed_job_asks_for_its_verdict() {
    let step = submission().on_lookup(Ok(Some(earlier(JobStatus::Completed))));
    assert_eq!(step, LookupStep { next: AfterLookup::FetchResult { request: work() }, fault: None });
}

#[test]
fn lookup_of_a_running_job_acknowledges() {
    let step = submission().on_lookup(Ok(Some(earlier(JobStatus::InProgress))));
    assert_eq!(
        step,
        LookupStep {
            next: AfterLookup::Reply(Response::Acknowledged {
                status: JobStatus::InProgress,
                request_id: "track".to_string(),
                message: "Build verification already in progress".to_string(),
            }),
            fault: None,
        }
    );
}

#[test]
fn lookup_of_a_failed_job_is_a_conflict() {
    let step = submission().on_lookup(Ok(Some(earlier(JobStatus::Failed))));
    assert_eq!(
        step,
        LookupStep { next: AfterLookup::Reply(Response::previous_failed()), fault: None }
    );
}

#[test]
fn fetched_verdict_gives_the_report() {
    let step = on_result(&work(), Ok(Some(verdict())));
    assert_eq!(
        step,
        ReportStep {
            reply: Response::Report {
                is_verified: true,
                message: "On chain program verified".to_string(),
                on_chain_hash: "aa".to_string(),
                executable_hash: "bb".to_string(),
                repo_url: "https://example.org/repo".to_string(),
            },
            fault: None,
        }
    );
}

#[test]
fn missing_verdict_is_an_inconsistency() {
    let expected =
        ReportStep { reply: Response::verdict_missing(), fault: Some(Fault::InconsistentState) };
    assert_eq!(on_result(&work(), Ok(None)), expected);
    assert_eq!(on_result(&work(), Err(StoreError::Unavailable)), expected);
}

#[test]
fn recorded_job_is_launched_and_acknowledged() {
    let job = earlier(JobStatus::InProgress);
    let step = on_insert(job.clone(), Ok(()));
    assert_eq!(
        step,
        InsertStep {
            next: AfterInsert::Launch {
                job,
                reply: Response::Acknowledged {
                    status: JobStatus::InProgress,
                    request_id: "earlier".to_string(),
                    message: "Build verification started".to_string(),
                },
            },
            fault: None,
        }
    );
}

#[test]
fn unrecorded_job_is_aborted() {
    let step = on_insert(earlier(JobStatus::InProgress), Err(StoreError::DuplicateId));
    assert_eq!(
        step,
        InsertStep {
            next: AfterInsert::Abort { reply: Response::not_recorded() },
            fault: Some(Fault::Persistence),
        }
    );
}

#[test]
fn worker_success_stores_the_verdict_and_completes() {
    assert_eq!(
        on_worker_finished(Ok(verdict())),
        Completion { result: Some(verdict()), status: JobStatus::Completed, fault: None }
    );
}

#[test]
fn worker_failure_fails_the_job() {
    assert_eq!(
        on_worker_finished(Err(WorkerError { reason: "timeout".to_string() })),
        Completion { result: None, status: JobStatus::Failed, fault: Some(Fault::Worker) }
    );
}

#[test]
fn write_failures_after_completion_are_absorbed_as_persistence_faults() {
    assert_eq!(Fault::absorbed(&Ok(())), None);
    assert_eq!(Fault::absorbed(&Err(StoreError::Unavailable)), Some(Fault::Persistence));
    assert_eq!(Fault::absorbed(&Err(StoreError::UnknownJob)), Some(Fault::Persistence));
    assert_eq!(Fault::absorbed(&Err(StoreError::InvalidTransition)), Some(Fault::Persistence));
}

#[test]
fn begin_stamps_with_a_random_uuid_and_the_current_time() {
    let before = chrono::Utc::now().naive_utc();
    let first = Submission::begin(work());
    let second = Submission::begin(work());
    let after = chrono::Utc::now().naive_utc();

    assert_eq!(first.request, work());
    assert!(before <= first.created_at);
    assert!(first.created_at <= second.created_at);
    assert!(second.created_at <= after);
    assert_ne!(first.tracking_id, second.tracking_id);

    for id in [&first.tracking_id, &second.tracking_id] {
        let chars: Vec<char> = id.chars().collect();
        assert_eq!(chars.len(), 36);
        for (i, c) in chars.iter().enumerate() {
            if i == 8 || i == 13 || i == 18 || i == 23 {
                assert_eq!(*c, '-');
            } else {
                assert!(matches!(*c, '0'..='9' | 'a'..='f'));
            }
        }
        assert_eq!(chars[14], '4');
        assert!(matches!(chars[19], '8' | '9' | 'a' | 'b'));
        assert_eq!(uuid::Uuid::parse_str(id).unwrap().get_version_num(), 4);
    }
}
