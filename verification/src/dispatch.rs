//! The decisions of the dispatcher, one step at a time.
//!
//! Handling a request alternates between asking the job record store and
//! deciding on its answer. The steps here are the decisions: each takes what
//! the store or the worker answered and says what to do next. Whoever owns
//! the store performs the operations in between.

use vstd::prelude::*;
use chrono::NaiveDateTime;
use crate::clock::utc_now;
use crate::error::{Fault, StoreError, WorkerError};
use crate::job::{JobRecord, JobRecordView, JobStatus};
use crate::request::VerificationRequest;
use crate::response::{Response, ResponseView};
use crate::tracking::{fresh_tracking_id, is_tracking_id};
use crate::verdict::VerifiedResult;

verus! {

/// A request on its way through the dispatcher, stamped with the identifier
/// and the creation time a new job for it would get.
#[derive(Debug, PartialEq, Eq)]
pub struct Submission {
    /// The work asked for. The store is searched for a job with this request.
    pub request: VerificationRequest,
    /// The identifier a new job would be recorded under, and the one an
    /// acknowledgment carries.
    pub tracking_id: String,
    /// The creation time a new job would get.
    pub created_at: NaiveDateTime,
}

/// What follows the search for an earlier job.
#[derive(Debug, PartialEq, Eq)]
pub enum AfterLookup {
    /// An earlier job is in progress or has failed: answer, and create nothing.
    Reply(Response),
    /// An earlier job is completed: fetch the verdict stored for the
    /// request's program and hand it to [`on_result`].
    FetchResult { request: VerificationRequest },
    /// No earlier job: record `job` and hand the outcome to [`on_insert`].
    Persist { job: JobRecord },
}

/// The decision taken on a lookup.
#[derive(Debug, PartialEq, Eq)]
pub struct LookupStep {
    pub next: AfterLookup,
    pub fault: Option<Fault>,
}

/// The answer to a request whose job is completed.
#[derive(Debug, PartialEq, Eq)]
pub struct ReportStep {
    pub reply: Response,
    pub fault: Option<Fault>,
}

/// What follows the attempt to record a new job.
#[derive(Debug, PartialEq, Eq)]
pub enum AfterInsert {
    /// The job is recorded: start one worker for `job`, detached, and
    /// answer with `reply` without waiting for it.
    Launch { job: JobRecord, reply: Response },
    /// The job is not recorded: answer with `reply` and start nothing.
    Abort { reply: Response },
}

/// The decision taken once the store has answered an insert.
#[derive(Debug, PartialEq, Eq)]
pub struct InsertStep {
    pub next: AfterInsert,
    pub fault: Option<Fault>,
}

/// What to write once a worker has finished: the verdict first, if there is
/// one, then the job's final status.
#[derive(Debug, PartialEq, Eq)]
pub struct Completion {
    pub result: Option<VerifiedResult>,
    pub status: JobStatus,
    pub fault: Option<Fault>,
}

/// The job a lookup is taken to have found. A lookup that failed counts as
/// one that found nothing.
pub open spec fn known_job(found: Result<Option<JobRecord>, StoreError>) -> Option<JobRecordView> {
    match found {
        Ok(Some(job)) => Some(job@),
        _ => None,
    }
}

impl Submission {
    /// Stamps `request` with a fresh tracking identifier and the current time.
    pub fn begin(request: VerificationRequest) -> (submission: Submission)
        ensures
            submission.request == request,
            is_tracking_id(submission.tracking_id@),
    {
        let tracking_id = fresh_tracking_id();
        let created_at = utc_now();
        Submission { request, tracking_id, created_at }
    }

    /// Decides on the outcome of the search for an earlier job with the same
    /// request. A failed search is noted as a fault and treated as no match.
    pub fn on_lookup(self, found: Result<Option<JobRecord>, StoreError>) -> (step: LookupStep)
        ensures
            step.fault == if found is Err {
                Some(Fault::DuplicateLookup)
            } else {
                None
            },
            match known_job(found) {
                None => step.next matches AfterLookup::Persist { job } && job@
                    == JobRecordView::started(self.tracking_id@, self.request@, self.created_at),
                Some(earlier) => match earlier.status {
                    JobStatus::Completed => step.next matches AfterLookup::FetchResult { request }
                        && request == self.request,
                    JobStatus::InProgress => step.next matches AfterLookup::Reply(reply) && reply@
                        == ResponseView::already_in_progress(self.tracking_id@),
                    JobStatus::Failed => step.next matches AfterLookup::Reply(reply) && reply@
                        == ResponseView::previous_failed(),
                },
            },
    {
        let fault = if found.is_err() {
            Some(Fault::DuplicateLookup)
        } else {
            None
        };
        let next = match found {
            Ok(Some(earlier)) => match earlier.status {
                JobStatus::Completed => AfterLookup::FetchResult { request: self.request },
                JobStatus::InProgress => AfterLookup::Reply(
                    Response::already_in_progress(self.tracking_id),
                ),
                JobStatus::Failed => AfterLookup::Reply(Response::previous_failed()),
            },
            _ => AfterLookup::Persist {
                job: JobRecord::start(self.tracking_id, self.request, self.created_at),
            },
        };
        LookupStep { next, fault }
    }
}

/// Answers a request whose job is completed, given what the store holds for
/// the request's program. A verdict gives the report. No verdict, or a store
/// that failed, is an inconsistency and gives an internal error.
pub fn on_result(
    request: &VerificationRequest,
    fetched: Result<Option<VerifiedResult>, StoreError>,
) -> (step: ReportStep)
    ensures
        match fetched {
            Ok(Some(result)) => step.reply@ == ResponseView::report(request@, result@)
                && step.fault is None,
            _ => step.reply@ == ResponseView::verdict_missing() && step.fault == Some(
                Fault::InconsistentState,
            ),
        },
{
    match fetched {
        Ok(Some(result)) => ReportStep { reply: Response::report(request, &result), fault: None },
        _ => ReportStep { reply: Response::verdict_missing(), fault: Some(Fault::InconsistentState) },
    }
}

/// Decides on the outcome of recording `job`. A recorded job is launched and
/// acknowledged under its identifier. A job that could not be recorded is
/// not accepted: no worker starts and the caller gets an internal error.
pub fn on_insert(job: JobRecord, outcome: Result<(), StoreError>) -> (step: InsertStep)
    ensures
        step.fault == Fault::of_write(outcome),
        match outcome {
            Ok(_) => step.next matches AfterInsert::Launch { job: launched, reply } && launched
                == job && reply@ == ResponseView::started(job.id@),
            Err(_) => step.next matches AfterInsert::Abort { reply } && reply@
                == ResponseView::not_recorded(),
        },
{
    match outcome {
        Ok(_) => {
            let reply = Response::started(job.id.clone());
            InsertStep { next: AfterInsert::Launch { job, reply }, fault: None }
        },
        Err(_) => InsertStep {
            next: AfterInsert::Abort { reply: Response::not_recorded() },
            fault: Some(Fault::Persistence),
        },
    }
}

/// Decides what to write once the worker for a job has finished. Success
/// stores the verdict and completes the job. Failure stores nothing and
/// fails the job.
pub fn on_worker_finished(outcome: Result<VerifiedResult, WorkerError>) -> (completion: Completion)
    ensures
        completion.status == JobStatus::of_outcome(outcome is Ok),
        match outcome {
            Ok(result) => completion.result == Some(result) && completion.fault is None,
            Err(_) => completion.result is None && completion.fault == Some(Fault::Worker),
        },
{
    match outcome {
        Ok(result) => Completion { result: Some(result), status: JobStatus::Completed, fault: None },
        Err(_) => Completion { result: None, status: JobStatus::Failed, fault: Some(Fault::Worker) },
    }
}

} // verus!
