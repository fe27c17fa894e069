//! Job records and the life cycle of a job.

use vstd::prelude::*;
use chrono::NaiveDateTime;
use crate::request::{RequestView, VerificationRequest};

verus! {

/// Where a job stands. A job starts in progress and ends, once, as
/// completed or failed.
#[derive(Debug, Clone, Copy, PartialEq, Eq, Structural)]
pub enum JobStatus {
    InProgress,
    Completed,
    Failed,
}

impl JobStatus {
    /// Completed and failed jobs never change again.
    pub open spec fn terminal(self) -> bool {
        self != JobStatus::InProgress
    }

    /// The only transitions: from in progress to completed or to failed.
    pub open spec fn allows(self, next: JobStatus) -> bool {
        self == JobStatus::InProgress && next.terminal()
    }

    /// The status a worker's outcome leads to.
    pub open spec fn of_outcome(succeeded: bool) -> JobStatus {
        if succeeded {
            JobStatus::Completed
        } else {
            JobStatus::Failed
        }
    }

    /// Tells whether the status is final.
    pub fn is_terminal(&self) -> (t: bool)
        ensures
            t == self.terminal(),
    {
        match self {
            JobStatus::InProgress => false,
            JobStatus::Completed => true,
            JobStatus::Failed => true,
        }
    }

    /// Tells whether a job in this status may move to `next`.
    pub fn can_become(&self, next: JobStatus) -> (ok: bool)
        ensures
            ok == self.allows(next),
    {
        match self {
            JobStatus::InProgress => next.is_terminal(),
            JobStatus::Completed => false,
            JobStatus::Failed => false,
        }
    }
}

/// The value of a job record.
pub struct JobRecordView {
    pub id: Seq<char>,
    pub request: RequestView,
    pub created_at: NaiveDateTime,
    pub status: JobStatus,
}

/// One accepted unit of verification work.
#[derive(Debug, PartialEq, Eq)]
pub struct JobRecord {
    /// The identifier the job was accepted under.
    pub id: String,
    /// The request the job was created for.
    pub request: VerificationRequest,
    /// When the job was created.
    pub created_at: NaiveDateTime,
    /// Where the job stands.
    pub status: JobStatus,
}

impl View for JobRecord {
    type V = JobRecordView;

    open spec fn view(&self) -> JobRecordView {
        JobRecordView {
            id: self.id@,
            request: self.request@,
            created_at: self.created_at,
            status: self.status,
        }
    }
}

impl DeepView for JobRecord {
    type V = JobRecordView;

    open spec fn deep_view(&self) -> JobRecordView {
        self@
    }
}

impl JobRecordView {
    /// The record a new job starts as.
    pub open spec fn started(
        id: Seq<char>,
        request: RequestView,
        created_at: NaiveDateTime,
    ) -> JobRecordView {
        JobRecordView { id, request, created_at, status: JobStatus::InProgress }
    }

    /// The same job in another status.
    pub open spec fn with_status(self, status: JobStatus) -> JobRecordView {
        JobRecordView { status, ..self }
    }
}

impl Clone for JobRecord {
    fn clone(&self) -> (copy: Self)
        ensures
            copy@ == self@,
    {
        JobRecord {
            id: self.id.clone(),
            request: self.request.clone(),
            created_at: self.created_at,
            status: self.status,
        }
    }
}

impl JobRecord {
    /// A new job for `request`, in progress.
    pub fn start(
        id: String,
        request: VerificationRequest,
        created_at: NaiveDateTime,
    ) -> (job: JobRecord)
        ensures
            job@ == JobRecordView::started(id@, request@, created_at),
    {
        JobRecord { id, request, created_at, status: JobStatus::InProgress }
    }
}

} // verus!
