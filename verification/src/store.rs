//! The job record store: what it holds, and an in-memory store that keeps
//! to it.

use vstd::prelude::*;
use crate::error::StoreError;
use crate::job::{JobRecord, JobRecordView, JobStatus};
use crate::request::{RequestView, VerificationRequest};
use crate::verdict::{VerifiedResult, VerifiedResultView};

verus! {

/// The most recent of `jobs` that was created for `request`, if there is one.
pub open spec fn latest_match(jobs: Seq<JobRecordView>, request: RequestView) -> Option<
    JobRecordView,
>
    decreases jobs.len(),
{
    if jobs.len() == 0 {
        None
    } else if jobs.last().request == request {
        Some(jobs.last())
    } else {
        latest_match(jobs.drop_last(), request)
    }
}

/// What a store holds: the jobs in the order they were recorded, and the
/// latest verdict for each program.
pub struct StoreView {
    pub jobs: Seq<JobRecordView>,
    pub results: Map<Seq<char>, VerifiedResultView>,
}

impl StoreView {
    /// The store that holds nothing.
    pub open spec fn empty() -> StoreView {
        StoreView { jobs: Seq::empty(), results: Map::empty() }
    }

    /// No two jobs share an identifier.
    pub open spec fn wf(self) -> bool {
        forall|i: int, j: int|
            0 <= i < j < self.jobs.len() ==> (#[trigger] self.jobs[i]).id != (
            #[trigger] self.jobs[j]).id
    }

    /// Whether a job is recorded under `id`.
    pub open spec fn has_job(self, id: Seq<char>) -> bool {
        exists|i: int| 0 <= i < self.jobs.len() && (#[trigger] self.jobs[i]).id == id
    }

    /// The job recorded under `id`.
    pub open spec fn job(self, id: Seq<char>) -> Option<JobRecordView> {
        if self.has_job(id) {
            Some(
                self.jobs[choose|i: int|
                    0 <= i < self.jobs.len() && (#[trigger] self.jobs[i]).id == id],
            )
        } else {
            None
        }
    }

    /// The most recent job created for `request`.
    pub open spec fn find(self, request: RequestView) -> Option<JobRecordView> {
        latest_match(self.jobs, request)
    }

    /// The verdict stored for a program.
    pub open spec fn verdict(self, program_id: Seq<char>) -> Option<VerifiedResultView> {
        if self.results.contains_key(program_id) {
            Some(self.results[program_id])
        } else {
            None
        }
    }

    /// Recording `job` appends it, unless a job has its identifier already.
    pub open spec fn insert(self, job: JobRecordView) -> Result<StoreView, StoreError> {
        if self.has_job(job.id) {
            Err(StoreError::DuplicateId)
        } else {
            Ok(StoreView { jobs: self.jobs.push(job), ..self })
        }
    }

    /// Every job as it was, but the one under `id` in status `status`.
    pub open spec fn with_status(self, id: Seq<char>, status: JobStatus) -> StoreView {
        StoreView {
            jobs: self.jobs.map_values(
                |job: JobRecordView|
                    if job.id == id {
                        job.with_status(status)
                    } else {
                        job
                    },
            ),
            ..self
        }
    }

    /// A job's status changes only along the life cycle: the job must be
    /// recorded and in progress, and `status` must be an end.
    pub open spec fn update_status(self, id: Seq<char>, status: JobStatus) -> Result<
        StoreView,
        StoreError,
    > {
        match self.job(id) {
            None => Err(StoreError::UnknownJob),
            Some(job) => if job.status.allows(status) {
                Ok(self.with_status(id, status))
            } else {
                Err(StoreError::InvalidTransition)
            },
        }
    }

    /// Storing a verdict replaces the one held for the same program.
    pub open spec fn upsert(self, result: VerifiedResultView) -> StoreView {
        StoreView { results: self.results.insert(result.program_id, result), ..self }
    }
}

/// The verdicts of `results` by program. Where `results` names each program
/// once, every entry is found under its program.
spec fn by_program(results: Seq<VerifiedResultView>) -> Map<
    Seq<char>,
    VerifiedResultView,
> {
    Map::new(
        |program_id: Seq<char>|
            exists|i: int| 0 <= i < results.len() && (#[trigger] results[i]).program_id == program_id,
        |program_id: Seq<char>|
            results[choose|i: int|
                0 <= i < results.len() && (#[trigger] results[i]).program_id == program_id],
    )
}

/// No two entries are for the same program.
spec fn one_per_program(results: Seq<VerifiedResultView>) -> bool {
    forall|i: int, j: int|
        0 <= i < j < results.len() ==> (#[trigger] results[i]).program_id != (
        #[trigger] results[j]).program_id
}

/// Where `results` names each program once, the entry at `at` is the one
/// found under its program.
proof fn lemma_found_by_program(results: Seq<VerifiedResultView>, at: int)
    requires
        one_per_program(results),
        0 <= at < results.len(),
    ensures
        by_program(results).contains_key(results[at].program_id),
        by_program(results)[results[at].program_id] == results[at],
{
}

/// Replacing the entry for a program replaces what is found under it.
proof fn lemma_replace_by_program(
    results: Seq<VerifiedResultView>,
    at: int,
    added: VerifiedResultView,
)
    requires
        one_per_program(results),
        0 <= at < results.len(),
        results[at].program_id == added.program_id,
    ensures
        one_per_program(results.update(at, added)),
        by_program(results.update(at, added)) == by_program(results).insert(
            added.program_id,
            added,
        ),
{
    let after = results.update(at, added);
    let wanted = by_program(results).insert(added.program_id, added);
    assert forall|k: Seq<char>| by_program(after).contains_key(k) implies wanted.contains_key(
        k,
    ) && by_program(after)[k] == wanted[k] by {
        let i = choose|i: int| 0 <= i < after.len() && (#[trigger] after[i]).program_id == k;
        lemma_found_by_program(after, i);
        if i != at {
            lemma_found_by_program(results, i);
        }
    }
    assert forall|k: Seq<char>| wanted.contains_key(k) implies by_program(after).contains_key(
        k,
    ) by {
        if k == added.program_id {
            assert(after[at].program_id == k);
        } else {
            let i = choose|i: int|
                0 <= i < results.len() && (#[trigger] results[i]).program_id == k;
            assert(after[i].program_id == k);
        }
    }
}

/// Adding an entry for a program that has none adds it to what is found.
proof fn lemma_push_by_program(results: Seq<VerifiedResultView>, added: VerifiedResultView)
    requires
        one_per_program(results),
        forall|i: int|
            0 <= i < results.len() ==> (#[trigger] results[i]).program_id != added.program_id,
    ensures
        one_per_program(results.push(added)),
        by_program(results.push(added)) == by_program(results).insert(added.program_id, added),
{
    let after = results.push(added);
    let last = results.len() as int;
    let wanted = by_program(results).insert(added.program_id, added);
    assert forall|k: Seq<char>| by_program(after).contains_key(k) implies wanted.contains_key(
        k,
    ) && by_program(after)[k] == wanted[k] by {
        let i = choose|i: int| 0 <= i < after.len() && (#[trigger] after[i]).program_id == k;
        lemma_found_by_program(after, i);
        if i < last {
            lemma_found_by_program(results, i);
        }
    }
    assert forall|k: Seq<char>| wanted.contains_key(k) implies by_program(after).contains_key(
        k,
    ) by {
        if k == added.program_id {
            assert(after[last].program_id == k);
        } else {
            let i = choose|i: int|
                0 <= i < results.len() && (#[trigger] results[i]).program_id == k;
            assert(after[i].program_id == k);
        }
    }
}

/// A job record store in memory.
///
/// Jobs are kept in the order they were recorded and never share an
/// identifier. One verdict is kept per program.
pub struct JobStore {
    jobs: Vec<JobRecord>,
    results: Vec<VerifiedResult>,
}

impl View for JobStore {
    type V = StoreView;

    closed spec fn view(&self) -> StoreView {
        StoreView {
            jobs: self.jobs.deep_view(),
            results: by_program(self.results.deep_view()),
        }
    }
}

impl JobStore {
    /// No two jobs share an identifier, and no program has two verdicts.
    #[verifier::type_invariant]
    spec fn inv(&self) -> bool {
        self@.wf() && one_per_program(self.results.deep_view())
    }

    /// An empty store.
    pub fn new() -> (store: JobStore)
        ensures
            store@ == StoreView::empty(),
    {
        let store = JobStore { jobs: Vec::new(), results: Vec::new() };
        assert(store@.jobs =~= Seq::empty());
        assert(store@.results =~= Map::empty());
        store
    }

    /// The number of jobs recorded.
    pub fn job_count(&self) -> (count: usize)
        ensures
            self@.wf(),
            count == self@.jobs.len(),
    {
        proof {
            use_type_invariant(self);
        }
        self.jobs.len()
    }

    /// Where the job recorded under `id` is kept.
    fn position(&self, id: &String) -> (at: Option<usize>)
        ensures
            match at {
                Some(i) => i < self.jobs.len() && self.jobs[i as int].id@ == id@,
                None => !self@.has_job(id@),
            },
    {
        let mut i: usize = 0;
        while i < self.jobs.len()
            invariant
                i <= self.jobs.len(),
                forall|k: int| 0 <= k < i ==> self.jobs[k].id@ != id@,
            decreases self.jobs.len() - i,
        {
            if self.jobs[i].id == *id {
                return Some(i);
            }
            i += 1;
        }
        None
    }

    /// The job recorded under `id`, if there is one.
    pub fn job(&self, id: &String) -> (found: Option<JobRecord>)
        ensures
            self@.wf(),
            found.deep_view() == self@.job(id@),
    {
        proof {
            use_type_invariant(self);
        }
        match self.position(id) {
            Some(i) => {
                assert(self@.jobs[i as int].id == id@);
                Some(self.jobs[i].clone())
            },
            None => None,
        }
    }

    /// The most recent job created for the same work as `request`: a job
    /// whose request equals `request` in every field.
    pub fn find_by_request_fields(&self, request: &VerificationRequest) -> (found: Option<
        JobRecord,
    >)
        ensures
            self@.wf(),
            found.deep_view() == self@.find(request@),
    {
        proof {
            use_type_invariant(self);
        }
        let ghost jobs = self@.jobs;
        let mut i: usize = self.jobs.len();
        assert(jobs.take(i as int) =~= jobs);
        while i > 0
            invariant
                self@.wf(),
                i <= self.jobs.len(),
                jobs == self@.jobs,
                latest_match(jobs, request@) == latest_match(jobs.take(i as int), request@),
            decreases i,
        {
            i -= 1;
            assert(jobs.take(i + 1).drop_last() =~= jobs.take(i as int));
            if self.jobs[i].request.same_work(request) {
                return Some(self.jobs[i].clone());
            }
        }
        None
    }

    /// Records a new job. Fails, and records nothing, when a job with the
    /// same identifier is recorded already.
    pub fn insert(&mut self, job: JobRecord) -> (outcome: Result<(), StoreError>)
        ensures
            final(self)@.wf(),
            match old(self)@.insert(job@) {
                Ok(after) => outcome is Ok && final(self)@ == after,
                Err(error) => outcome == Err::<(), StoreError>(error) && final(self)@ == old(self)@,
            },
    {
        proof {
            use_type_invariant(&*self);
        }
        match self.position(&job.id) {
            Some(i) => {
                assert(self@.jobs[i as int].id == job.id@);
                Err(StoreError::DuplicateId)
            },
            None => {
                // The jobs are changed outside the store and put back whole.
                let ghost before = self@;
                let mut jobs: Vec<JobRecord> = Vec::new();
                std::mem::swap(&mut self.jobs, &mut jobs);
                jobs.push(job);
                assert(jobs.deep_view() =~= before.jobs.push(job@));
                std::mem::swap(&mut self.jobs, &mut jobs);
                Ok(())
            },
        }
    }

    /// Moves the job under `id` to `status`. Only a job in progress can
    /// move, and only to completed or failed. Anything else fails and
    /// changes nothing.
    pub fn update_status(&mut self, id: &String, status: JobStatus) -> (outcome: Result<
        (),
        StoreError,
    >)
        ensures
            final(self)@.wf(),
            match old(self)@.update_status(id@, status) {
                Ok(after) => outcome is Ok && final(self)@ == after,
                Err(error) => outcome == Err::<(), StoreError>(error) && final(self)@ == old(self)@,
            },
    {
        proof {
            use_type_invariant(&*self);
        }
        match self.position(id) {
            None => Err(StoreError::UnknownJob),
            Some(i) => {
                assert(self@.jobs[i as int].id == id@);
                if self.jobs[i].status.can_become(status) {
                    let ghost before = self@;
                    let mut moved = self.jobs[i].clone();
                    moved.status = status;
                    let mut jobs: Vec<JobRecord> = Vec::new();
                    std::mem::swap(&mut self.jobs, &mut jobs);
                    jobs.set(i, moved);
                    assert(jobs.deep_view() =~= before.with_status(id@, status).jobs);
                    std::mem::swap(&mut self.jobs, &mut jobs);
                    Ok(())
                } else {
                    Err(StoreError::InvalidTransition)
                }
            },
        }
    }

    /// Where the verdict for a program is kept.
    fn verdict_position(&self, program_id: &String) -> (at: Option<usize>)
        ensures
            match at {
                Some(i) => i < self.results.len() && self.results[i as int].program_id@
                    == program_id@,
                None => forall|k: int|
                    0 <= k < self.results.len() ==> (#[trigger] self.results[k]).program_id@
                        != program_id@,
            },
    {
        let mut i: usize = 0;
        while i < self.results.len()
            invariant
                i <= self.results.len(),
                forall|k: int| 0 <= k < i ==> (#[trigger] self.results[k]).program_id@ != program_id@,
            decreases self.results.len() - i,
        {
            if self.results[i].program_id == *program_id {
                return Some(i);
            }
            i += 1;
        }
        None
    }

    /// The verdict stored for a program, if there is one.
    pub fn get_verified_result(&self, program_id: &String) -> (outcome: Result<
        Option<VerifiedResult>,
        StoreError,
    >)
        ensures
            self@.wf(),
            outcome matches Ok(found) && found.deep_view() == self@.verdict(program_id@),
    {
        proof {
            use_type_invariant(self);
        }
        let ghost held = self.results.deep_view();
        match self.verdict_position(program_id) {
            Some(i) => {
                assert(held[i as int].program_id == program_id@);
                Ok(Some(self.results[i].clone()))
            },
            None => {
                assert(forall|k: int|
                    0 <= k < held.len() ==> (#[trigger] held[k]).program_id
                        == self.results[k].program_id@);
                Ok(None)
            },
        }
    }

    /// Stores a verdict, in place of the one held for the same program if
    /// there is one.
    pub fn upsert_verified_result(&mut self, result: VerifiedResult) -> (outcome: Result<
        (),
        StoreError,
    >)
        ensures
            outcome is Ok,
            final(self)@.wf(),
            final(self)@ == old(self)@.upsert(result@),
    {
        proof {
            use_type_invariant(&*self);
        }
        let ghost before = self.results.deep_view();
        let ghost added = result@;
        assert(forall|k: int|
            0 <= k < before.len() ==> (#[trigger] before[k]).program_id
                == self.results[k].program_id@);
        match self.verdict_position(&result.program_id) {
            Some(i) => {
                let mut results: Vec<VerifiedResult> = Vec::new();
                std::mem::swap(&mut self.results, &mut results);
                results.set(i, result);
                proof {
                    assert(results.deep_view() =~= before.update(i as int, added));
                    lemma_replace_by_program(before, i as int, added);
                }
                std::mem::swap(&mut self.results, &mut results);
            },
            None => {
                let mut results: Vec<VerifiedResult> = Vec::new();
                std::mem::swap(&mut self.results, &mut results);
                results.push(result);
                proof {
                    assert(results.deep_view() =~= before.push(added));
                    lemma_push_by_program(before, added);
                }
                std::mem::swap(&mut self.results, &mut results);
            },
        }
        Ok(())
    }
}

} // verus!
