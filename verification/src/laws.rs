//! What holds of the dispatcher whatever the store holds.
//!
//! Each statement is about [`submit_model`] and [`complete_model`], which
//! the handlers in [`crate::service`] are proved to follow.

use vstd::prelude::*;
use chrono::NaiveDateTime;
use crate::error::Fault;
use crate::job::{JobRecordView, JobStatus};
use crate::request::RequestView;
use crate::response::ResponseView;
use crate::service::{complete_model, lemma_match_is_same_work, submit_model};
use crate::store::StoreView;
use crate::verdict::VerifiedResultView;

verus! {

/// The store after the same request was handled once for each of `stamps`,
/// in order.
pub open spec fn resubmit_model(
    store: StoreView,
    request: RequestView,
    stamps: Seq<(Seq<char>, NaiveDateTime)>,
) -> StoreView
    decreases stamps.len(),
{
    if stamps.len() == 0 {
        store
    } else {
        submit_model(
            resubmit_model(store, request, stamps.drop_last()),
            request,
            stamps.last().0,
            stamps.last().1,
        ).store
    }
}

/// Moving jobs to another status changes no request, so the same job is
/// found, in the status it has now.
proof fn lemma_find_after_status(
    store: StoreView,
    id: Seq<char>,
    status: JobStatus,
    request: RequestView,
)
    ensures
        store.with_status(id, status).find(request) == match store.find(request) {
            Some(job) => Some(
                if job.id == id {
                    job.with_status(status)
                } else {
                    job
                },
            ),
            None => None,
        },
    decreases store.jobs.len(),
{
    let moved = store.with_status(id, status);
    if store.jobs.len() > 0 {
        let rest = StoreView { jobs: store.jobs.drop_last(), ..store };
        assert(moved.jobs.drop_last() =~= rest.with_status(id, status).jobs);
        lemma_find_after_status(rest, id, status, request);
    }
}

/// A completed job whose verdict is stored is answered by the report on
/// that verdict. The report shows the stored result's verdict and hashes
/// and the request's repository reference, nothing else. No job is created
/// and no worker starts.
pub proof fn law_completed_work_is_reported(
    store: StoreView,
    request: RequestView,
    tracking_id: Seq<char>,
    created_at: NaiveDateTime,
)
    requires
        store.find(request) matches Some(job) && job.status == JobStatus::Completed,
        store.results.contains_key(request.program_id),
    ensures
        ({
            let outcome = submit_model(store, request, tracking_id, created_at);
            &&& outcome.reply == ResponseView::report(request, store.results[request.program_id])
            &&& outcome.store == store
            &&& outcome.launched is None
            &&& outcome.faults == Seq::<Fault>::empty()
        }),
{
    lemma_match_is_same_work(store.jobs, request);
}

/// A completed job whose verdict is not stored is an inconsistency: the
/// reply is an internal error, and still no job is created.
pub proof fn law_missing_verdict_is_an_error(
    store: StoreView,
    request: RequestView,
    tracking_id: Seq<char>,
    created_at: NaiveDateTime,
)
    requires
        store.find(request) matches Some(job) && job.status == JobStatus::Completed,
        !store.results.contains_key(request.program_id),
    ensures
        ({
            let outcome = submit_model(store, request, tracking_id, created_at);
            &&& outcome.reply == ResponseView::verdict_missing()
            &&& outcome.store == store
            &&& outcome.launched is None
            &&& outcome.faults == seq![Fault::InconsistentState]
        }),
{
}

/// While a job for the same work is in progress, a request is acknowledged
/// under its own tracking identifier. No job is created and no worker
/// starts.
pub proof fn law_work_in_progress_is_acknowledged(
    store: StoreView,
    request: RequestView,
    tracking_id: Seq<char>,
    created_at: NaiveDateTime,
)
    requires
        store.find(request) matches Some(job) && job.status == JobStatus::InProgress,
    ensures
        ({
            let outcome = submit_model(store, request, tracking_id, created_at);
            &&& outcome.reply == ResponseView::already_in_progress(tracking_id)
            &&& outcome.store == store
            &&& outcome.launched is None
            &&& outcome.faults == Seq::<Fault>::empty()
        }),
{
}

/// Once a job for the same work has failed, a request is answered by the
/// conflict. No job is created and no worker starts.
pub proof fn law_failed_work_is_a_conflict(
    store: StoreView,
    request: RequestView,
    tracking_id: Seq<char>,
    created_at: NaiveDateTime,
)
    requires
        store.find(request) matches Some(job) && job.status == JobStatus::Failed,
    ensures
        ({
            let outcome = submit_model(store, request, tracking_id, created_at);
            &&& outcome.reply == ResponseView::previous_failed()
            &&& outcome.store == store
            &&& outcome.launched is None
            &&& outcome.faults == Seq::<Fault>::empty()
        }),
{
}

/// Work that no job exists for gets exactly one new job: it is appended in
/// progress, under the tracking identifier, and it is the one job launched.
/// This is what happens whenever the store takes the new record, that is
/// when no job is recorded under the tracking identifier yet.
pub proof fn law_new_work_is_recorded_and_launched(
    store: StoreView,
    request: RequestView,
    tracking_id: Seq<char>,
    created_at: NaiveDateTime,
)
    requires
        store.find(request) is None,
        !store.has_job(tracking_id),
    ensures
        ({
            let outcome = submit_model(store, request, tracking_id, created_at);
            let job = JobRecordView {
                id: tracking_id,
                request,
                created_at,
                status: JobStatus::InProgress,
            };
            &&& outcome.store.jobs == store.jobs.push(job)
            &&& outcome.store.results == store.results
            &&& outcome.launched == Some(job)
            &&& outcome.reply == ResponseView::started(tracking_id)
            &&& outcome.faults == Seq::<Fault>::empty()
            &&& outcome.store.find(request) == Some(job)
        }),
{
}

/// A new job that the store refuses is not accepted: the store stays as it
/// is, no worker starts, and the reply is an internal error.
pub proof fn law_unrecorded_work_is_not_launched(
    store: StoreView,
    request: RequestView,
    tracking_id: Seq<char>,
    created_at: NaiveDateTime,
)
    requires
        store.find(request) is None,
        store.has_job(tracking_id),
    ensures
        ({
            let outcome = submit_model(store, request, tracking_id, created_at);
            &&& outcome.store == store
            &&& outcome.launched is None
            &&& outcome.reply == ResponseView::not_recorded()
            &&& outcome.faults == seq![Fault::Persistence]
        }),
{
}

/// A worker is launched only for a job that this request created: a job in
/// progress, newly recorded, for work that had no job, under an identifier
/// that no recorded job had. So no two workers are launched for one job.
pub proof fn law_launch_means_recorded(
    store: StoreView,
    request: RequestView,
    tracking_id: Seq<char>,
    created_at: NaiveDateTime,
)
    ensures
        ({
            let outcome = submit_model(store, request, tracking_id, created_at);
            outcome.launched matches Some(job) ==> {
                &&& job == JobRecordView::started(tracking_id, request, created_at)
                &&& store.find(request) is None
                &&& !store.has_job(tracking_id)
                &&& outcome.store.jobs == store.jobs.push(job)
            }
        }),
{
}

/// Repeating a request whose job has failed never retries it: however often
/// it was repeated before, the store is as it was, and the next repeat is
/// answered by the conflict and starts no worker.
pub proof fn law_failed_work_is_never_retried(
    store: StoreView,
    request: RequestView,
    stamps: Seq<(Seq<char>, NaiveDateTime)>,
    tracking_id: Seq<char>,
    created_at: NaiveDateTime,
)
    requires
        store.find(request) matches Some(job) && job.status == JobStatus::Failed,
    ensures
        resubmit_model(store, request, stamps) == store,
        ({
            let outcome = submit_model(
                resubmit_model(store, request, stamps),
                request,
                tracking_id,
                created_at,
            );
            &&& outcome.reply == ResponseView::previous_failed()
            &&& outcome.store == store
            &&& outcome.launched is None
        }),
    decreases stamps.len(),
{
    if stamps.len() > 0 {
        law_failed_work_is_never_retried(
            store,
            request,
            stamps.drop_last(),
            stamps.last().0,
            stamps.last().1,
        );
    }
}

/// A request repeated while its new job is still in progress is
/// acknowledged and creates nothing.
pub proof fn law_repeat_before_the_end_is_acknowledged(
    store: StoreView,
    request: RequestView,
    first_id: Seq<char>,
    first_time: NaiveDateTime,
    second_id: Seq<char>,
    second_time: NaiveDateTime,
)
    requires
        store.find(request) is None,
        !store.has_job(first_id),
    ensures
        ({
            let first = submit_model(store, request, first_id, first_time);
            let second = submit_model(first.store, request, second_id, second_time);
            &&& first.reply == ResponseView::started(first_id)
            &&& second.reply == ResponseView::already_in_progress(second_id)
            &&& second.store == first.store
            &&& second.launched is None
            &&& second.store.jobs.len() == store.jobs.len() + 1
        }),
{
    law_new_work_is_recorded_and_launched(store, request, first_id, first_time);
}

/// New work whose worker succeeds is reported from then on: once the
/// verdict for the request's program is written back, the same request is
/// answered by the report on that verdict, and no second job is created.
pub proof fn law_success_is_reported_afterwards(
    store: StoreView,
    request: RequestView,
    first_id: Seq<char>,
    first_time: NaiveDateTime,
    result: VerifiedResultView,
    second_id: Seq<char>,
    second_time: NaiveDateTime,
)
    requires
        store.find(request) is None,
        !store.has_job(first_id),
        result.program_id == request.program_id,
    ensures
        ({
            let first = submit_model(store, request, first_id, first_time);
            let settled = complete_model(first.store, first_id, Some(result));
            let second = submit_model(settled.store, request, second_id, second_time);
            &&& settled.faults == Seq::<Fault>::empty()
            &&& settled.store.find(request) == Some(
                JobRecordView::started(first_id, request, first_time).with_status(
                    JobStatus::Completed,
                ),
            )
            &&& second.reply == ResponseView::report(request, result)
            &&& second.store == settled.store
            &&& second.launched is None
            &&& second.store.jobs.len() == store.jobs.len() + 1
        }),
{
    let job = JobRecordView::started(first_id, request, first_time);
    law_new_work_is_recorded_and_launched(store, request, first_id, first_time);
    let first = submit_model(store, request, first_id, first_time);
    let stored = first.store.upsert(result);
    lemma_job_after_push(store, job);
    lemma_find_after_status(stored, first_id, JobStatus::Completed, request);
}

/// New work whose worker fails is a conflict from then on: the job is
/// recorded as failed, and the same request creates no second job.
pub proof fn law_failure_is_a_conflict_afterwards(
    store: StoreView,
    request: RequestView,
    first_id: Seq<char>,
    first_time: NaiveDateTime,
    second_id: Seq<char>,
    second_time: NaiveDateTime,
)
    requires
        store.find(request) is None,
        !store.has_job(first_id),
    ensures
        ({
            let first = submit_model(store, request, first_id, first_time);
            let settled = complete_model(first.store, first_id, None);
            let second = submit_model(settled.store, request, second_id, second_time);
            &&& settled.faults == seq![Fault::Worker]
            &&& settled.store.find(request) == Some(
                JobRecordView::started(first_id, request, first_time).with_status(
                    JobStatus::Failed,
                ),
            )
            &&& second.reply == ResponseView::previous_failed()
            &&& second.store == settled.store
            &&& second.launched is None
            &&& second.store.jobs.len() == store.jobs.len() + 1
        }),
{
    let job = JobRecordView::started(first_id, request, first_time);
    law_new_work_is_recorded_and_launched(store, request, first_id, first_time);
    let first = submit_model(store, request, first_id, first_time);
    lemma_job_after_push(store, job);
    lemma_find_after_status(first.store, first_id, JobStatus::Failed, request);
}

/// The job recorded under a fresh identifier is the one held under it.
proof fn lemma_job_after_push(store: StoreView, job: JobRecordView)
    requires
        !store.has_job(job.id),
    ensures
        (StoreView { jobs: store.jobs.push(job), ..store }).job(job.id) == Some(job),
{
    let after = StoreView { jobs: store.jobs.push(job), ..store };
    assert(after.jobs[store.jobs.len() as int] == job);
}

/// Handling a request never touches the jobs already recorded: they stay
/// where they are, as they are, and at most one job is appended.
pub proof fn law_submit_keeps_history(
    store: StoreView,
    request: RequestView,
    tracking_id: Seq<char>,
    created_at: NaiveDateTime,
)
    ensures
        ({
            let after = submit_model(store, request, tracking_id, created_at).store;
            &&& after.jobs.len() == store.jobs.len() || after.jobs.len() == store.jobs.len() + 1
            &&& after.jobs.take(store.jobs.len() as int) == store.jobs
            &&& after.results == store.results
            &&& store.wf() ==> after.wf()
        }),
{
}

/// Writing back a worker's outcome moves at most the job it ran for, and
/// only from in progress to its end: a job that has ended never changes
/// again, and no job ever changes its identifier, its request or its
/// creation time.
pub proof fn law_status_only_moves_forward(
    store: StoreView,
    job_id: Seq<char>,
    verdict: Option<VerifiedResultView>,
)
    requires
        store.wf(),
    ensures
        ({
            let after = complete_model(store, job_id, verdict).store;
            &&& after.wf()
            &&& after.jobs.len() == store.jobs.len()
            &&& forall|i: int|
                0 <= i < store.jobs.len() ==> {
                    let was = #[trigger] store.jobs[i];
                    if was.id == job_id && was.status == JobStatus::InProgress {
                        after.jobs[i] == was.with_status(JobStatus::of_outcome(verdict is Some))
                    } else {
                        after.jobs[i] == was
                    }
                }
        }),
{
}

} // verus!
