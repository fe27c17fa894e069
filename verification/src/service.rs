//! The dispatcher at work on a store in memory: a request handled from its
//! arrival to the reply, and a finished worker's outcome written back.

use vstd::prelude::*;
use chrono::NaiveDateTime;
use crate::dispatch::{
    on_insert, on_result, on_worker_finished, AfterInsert, AfterLookup, Submission,
};
use crate::error::{Fault, WorkerError};
use crate::job::{JobRecord, JobRecordView, JobStatus};
use crate::request::{RequestView, VerificationRequest};
use crate::response::{Response, ResponseView};
use crate::store::{latest_match, JobStore, StoreView};
use crate::tracking::is_tracking_id;
use crate::verdict::{VerifiedResult, VerifiedResultView};

verus! {

/// The value of a handled request: the store afterwards, the reply, the job
/// a worker is started for, and the faults noted on the way.
pub struct OutcomeView {
    pub store: StoreView,
    pub reply: ResponseView,
    pub launched: Option<JobRecordView>,
    pub faults: Seq<Fault>,
}

/// A handled request.
#[derive(Debug, PartialEq, Eq)]
pub struct Outcome {
    /// What the caller is told.
    pub reply: Response,
    /// The job to start a worker for, when a new job was accepted.
    pub launch: Option<JobRecord>,
    /// The faults noted on the way, in the order they occurred.
    pub faults: Vec<Fault>,
}

/// Handling a request, as a function of what the store holds.
///
/// An earlier job for the same work is answered by its projection and the
/// store stays as it is. Without one, a new job in progress is recorded under
/// `tracking_id` and launched; if the store refuses it, nothing is recorded
/// or launched and the reply is an internal error.
pub open spec fn submit_model(
    store: StoreView,
    request: RequestView,
    tracking_id: Seq<char>,
    created_at: NaiveDateTime,
) -> OutcomeView {
    match store.find(request) {
        Some(earlier) => {
            let verdict = store.verdict(request.program_id);
            OutcomeView {
                store,
                reply: ResponseView::project(earlier, verdict, tracking_id),
                launched: None,
                faults: if earlier.status == JobStatus::Completed && verdict is None {
                    seq![Fault::InconsistentState]
                } else {
                    seq![]
                },
            }
        },
        None => {
            let job = JobRecordView::started(tracking_id, request, created_at);
            match store.insert(job) {
                Ok(after) => OutcomeView {
                    store: after,
                    reply: ResponseView::started(tracking_id),
                    launched: Some(job),
                    faults: seq![],
                },
                Err(_) => OutcomeView {
                    store,
                    reply: ResponseView::not_recorded(),
                    launched: None,
                    faults: seq![Fault::Persistence],
                },
            }
        },
    }
}

/// The value of a finished job written back: the store afterwards and the
/// faults noted.
pub struct SettlementView {
    pub store: StoreView,
    pub faults: Seq<Fault>,
}

/// Writing back a worker's outcome, as a function of what the store holds.
///
/// A verdict is stored first. Then the job moves to completed if there is a
/// verdict and to failed if there is none. Where the store refuses the move
/// the job stays as it is; a stored verdict stays stored.
pub open spec fn complete_model(
    store: StoreView,
    job_id: Seq<char>,
    verdict: Option<VerifiedResultView>,
) -> SettlementView {
    let stored = match verdict {
        Some(result) => store.upsert(result),
        None => store,
    };
    let worker_faults = if verdict is None {
        seq![Fault::Worker]
    } else {
        seq![]
    };
    match stored.update_status(job_id, JobStatus::of_outcome(verdict is Some)) {
        Ok(after) => SettlementView { store: after, faults: worker_faults },
        Err(_) => SettlementView { store: stored, faults: worker_faults.push(Fault::Persistence) },
    }
}

/// The verdict in a worker's outcome, if it succeeded.
pub open spec fn verdict_of(outcome: Result<VerifiedResult, WorkerError>) -> Option<
    VerifiedResultView,
> {
    match outcome {
        Ok(result) => Some(result@),
        Err(_) => None,
    }
}

/// A job found for a request was created for that request.
pub proof fn lemma_match_is_same_work(jobs: Seq<JobRecordView>, request: RequestView)
    ensures
        latest_match(jobs, request) matches Some(job) ==> job.request == request,
    decreases jobs.len(),
{
    if jobs.len() > 0 && jobs.last().request != request {
        lemma_match_is_same_work(jobs.drop_last(), request);
    }
}

/// Handles a stamped request against the store: searches for an earlier job
/// for the same work, and answers from it or records and launches a new job.
pub fn resolve(store: &mut JobStore, submission: Submission) -> (outcome: Outcome)
    ensures
        final(store)@.wf(),
        ({
            let model = submit_model(
                old(store)@,
                submission.request@,
                submission.tracking_id@,
                submission.created_at,
            );
            &&& final(store)@ == model.store
            &&& outcome.reply@ == model.reply
            &&& outcome.launch.deep_view() == model.launched
            &&& outcome.faults@ == model.faults
        }),
{
    proof {
        lemma_match_is_same_work(store@.jobs, submission.request@);
    }
    let found = store.find_by_request_fields(&submission.request);
    let step = submission.on_lookup(Ok(found));
    let mut faults: Vec<Fault> = Vec::new();
    match step.next {
        AfterLookup::Reply(reply) => Outcome { reply, launch: None, faults },
        AfterLookup::FetchResult { request } => {
            let fetched = store.get_verified_result(&request.program_id);
            let answer = on_result(&request, fetched);
            if let Some(fault) = answer.fault {
                faults.push(fault);
            }
            assert(faults@ =~= submit_model(
                old(store)@,
                submission.request@,
                submission.tracking_id@,
                submission.created_at,
            ).faults);
            Outcome { reply: answer.reply, launch: None, faults }
        },
        AfterLookup::Persist { job } => {
            let recorded = store.insert(job.clone());
            let decided = on_insert(job, recorded);
            if let Some(fault) = decided.fault {
                faults.push(fault);
            }
            assert(faults@ =~= submit_model(
                old(store)@,
                submission.request@,
                submission.tracking_id@,
                submission.created_at,
            ).faults);
            match decided.next {
                AfterInsert::Launch { job, reply } => Outcome { reply, launch: Some(job), faults },
                AfterInsert::Abort { reply } => Outcome { reply, launch: None, faults },
            }
        },
    }
}

/// Handles a request: stamps it with a fresh tracking identifier and the
/// current time, then resolves it against the store.
pub fn submit(store: &mut JobStore, request: VerificationRequest) -> (outcome: Outcome)
    ensures
        final(store)@.wf(),
        exists|tracking_id: Seq<char>, created_at: NaiveDateTime|
            {
                let model = #[trigger] submit_model(
                    old(store)@,
                    request@,
                    tracking_id,
                    created_at,
                );
                &&& is_tracking_id(tracking_id)
                &&& final(store)@ == model.store
                &&& outcome.reply@ == model.reply
                &&& outcome.launch.deep_view() == model.launched
                &&& outcome.faults@ == model.faults
            },
{
    let submission = Submission::begin(request);
    let ghost tracking_id = submission.tracking_id@;
    let ghost created_at = submission.created_at;
    let outcome = resolve(store, submission);
    assert({
        let model = submit_model(old(store)@, request@, tracking_id, created_at);
        &&& is_tracking_id(tracking_id)
        &&& store@ == model.store
        &&& outcome.reply@ == model.reply
        &&& outcome.launch.deep_view() == model.launched
        &&& outcome.faults@ == model.faults
    });
    outcome
}

/// Writes back the outcome of the worker that ran for the job under
/// `job_id`, and returns the faults noted, in order. A failure of the store
/// is noted and goes no further.
pub fn complete(
    store: &mut JobStore,
    job_id: &String,
    outcome: Result<VerifiedResult, WorkerError>,
) -> (faults: Vec<Fault>)
    ensures
        final(store)@.wf(),
        ({
            let model = complete_model(old(store)@, job_id@, verdict_of(outcome));
            final(store)@ == model.store && faults@ == model.faults
        }),
{
    let completion = on_worker_finished(outcome);
    let mut faults: Vec<Fault> = Vec::new();
    if let Some(fault) = completion.fault {
        faults.push(fault);
    }
    if let Some(result) = completion.result {
        let stored = store.upsert_verified_result(result);
        if let Some(fault) = Fault::absorbed(&stored) {
            faults.push(fault);
        }
    }
    let moved = store.update_status(job_id, completion.status);
    if let Some(fault) = Fault::absorbed(&moved) {
        faults.push(fault);
    }
    faults
}

} // verus!
