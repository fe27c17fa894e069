//! The replies a caller can get, and the projection of stored state onto them.

use vstd::prelude::*;
use crate::job::{JobRecord, JobRecordView, JobStatus};
use crate::request::{RequestView, VerificationRequest};
use crate::verdict::{VerifiedResult, VerifiedResultView};

verus! {

/// The class of outcome a reply stands for.
#[derive(Debug, Clone, Copy, PartialEq, Eq, Structural)]
pub enum StatusClass {
    /// The request was answered or accepted.
    Success,
    /// The same work was tried before and failed.
    Conflict,
    /// The service could not do its part.
    ServerError,
}

impl StatusClass {
    /// The HTTP status code of the class.
    pub open spec fn code_of(self) -> u16 {
        match self {
            StatusClass::Success => 200,
            StatusClass::Conflict => 409,
            StatusClass::ServerError => 500,
        }
    }

    /// The HTTP status code of the class: 200, 409 or 500.
    pub fn code(&self) -> (code: u16)
        ensures
            code == self.code_of(),
    {
        match self {
            StatusClass::Success => 200,
            StatusClass::Conflict => 409,
            StatusClass::ServerError => 500,
        }
    }
}

/// The marker carried by replies that report an error.
#[derive(Debug, Clone, Copy, PartialEq, Eq, Structural)]
pub enum Status {
    Error,
}

/// The value of a reply.
#[allow(inconsistent_fields)]
pub enum ResponseView {
    Report {
        is_verified: bool,
        message: Seq<char>,
        on_chain_hash: Seq<char>,
        executable_hash: Seq<char>,
        repo_url: Seq<char>,
    },
    Acknowledged { status: JobStatus, request_id: Seq<char>, message: Seq<char> },
    Conflict { status: Status, error: Seq<char> },
    InternalError { status: Status, error: Seq<char> },
}

/// What a caller is told.
#[allow(inconsistent_fields)]
#[derive(Debug, PartialEq, Eq)]
pub enum Response {
    /// The verdict of a completed job.
    Report {
        is_verified: bool,
        message: String,
        on_chain_hash: String,
        executable_hash: String,
        repo_url: String,
    },
    /// The work is accepted, or already under way.
    Acknowledged { status: JobStatus, request_id: String, message: String },
    /// The same work failed before; it is not tried again.
    Conflict { status: Status, error: String },
    /// The service failed to record the job or to find a recorded verdict.
    InternalError { status: Status, error: String },
}

impl View for Response {
    type V = ResponseView;

    open spec fn view(&self) -> ResponseView {
        match self {
            Response::Report { is_verified, message, on_chain_hash, executable_hash, repo_url } =>
                ResponseView::Report {
                    is_verified: *is_verified,
                    message: message@,
                    on_chain_hash: on_chain_hash@,
                    executable_hash: executable_hash@,
                    repo_url: repo_url@,
                },
            Response::Acknowledged { status, request_id, message } => ResponseView::Acknowledged {
                status: *status,
                request_id: request_id@,
                message: message@,
            },
            Response::Conflict { status, error } => ResponseView::Conflict {
                status: *status,
                error: error@,
            },
            Response::InternalError { status, error } => ResponseView::InternalError {
                status: *status,
                error: error@,
            },
        }
    }
}

/// The message of a report, by verdict.
pub open spec fn verdict_message(is_verified: bool) -> Seq<char> {
    if is_verified {
        "On chain program verified"@
    } else {
        "On chain program not verified"@
    }
}

impl ResponseView {
    /// The report on a completed job: the verdict and hashes of the stored
    /// result, and the request's repository reference.
    pub open spec fn report(request: RequestView, result: VerifiedResultView) -> ResponseView {
        ResponseView::Report {
            is_verified: result.is_verified,
            message: verdict_message(result.is_verified),
            on_chain_hash: result.on_chain_hash,
            executable_hash: result.executable_hash,
            repo_url: request.repo_reference(),
        }
    }

    /// The acknowledgment of a newly accepted job.
    pub open spec fn started(tracking_id: Seq<char>) -> ResponseView {
        ResponseView::Acknowledged {
            status: JobStatus::InProgress,
            request_id: tracking_id,
            message: "Build verification started"@,
        }
    }

    /// The acknowledgment given while the same work is under way.
    pub open spec fn already_in_progress(tracking_id: Seq<char>) -> ResponseView {
        ResponseView::Acknowledged {
            status: JobStatus::InProgress,
            request_id: tracking_id,
            message: "Build verification already in progress"@,
        }
    }

    /// The conflict reported when the same work failed before.
    pub open spec fn previous_failed() -> ResponseView {
        ResponseView::Conflict {
            status: Status::Error,
            error: "The previous request has already been processed, but unfortunately, the verification process has failed."@,
        }
    }

    /// The error reported when a new job could not be recorded.
    pub open spec fn not_recorded() -> ResponseView {
        ResponseView::InternalError {
            status: Status::Error,
            error: "An unforeseen database error has occurred, preventing the initiation of the build process. Kindly try again after some time."@,
        }
    }

    /// The error reported when a completed job has no stored verdict.
    pub open spec fn verdict_missing() -> ResponseView {
        ResponseView::InternalError {
            status: Status::Error,
            error: "The build is recorded as completed, but its verification result could not be found."@,
        }
    }

    /// Reports and acknowledgments are successes; the two error shapes have
    /// classes of their own.
    pub open spec fn class(self) -> StatusClass {
        match self {
            ResponseView::Report { .. } => StatusClass::Success,
            ResponseView::Acknowledged { .. } => StatusClass::Success,
            ResponseView::Conflict { .. } => StatusClass::Conflict,
            ResponseView::InternalError { .. } => StatusClass::ServerError,
        }
    }

    /// What a stored job looks like from outside: a completed job shows its
    /// verdict, or an internal error when none is stored; a job in progress
    /// is acknowledged under `tracking_id`; a failed job is a conflict.
    pub open spec fn project(
        job: JobRecordView,
        result: Option<VerifiedResultView>,
        tracking_id: Seq<char>,
    ) -> ResponseView {
        match job.status {
            JobStatus::Completed => match result {
                Some(found) => ResponseView::report(job.request, found),
                None => ResponseView::verdict_missing(),
            },
            JobStatus::InProgress => ResponseView::already_in_progress(tracking_id),
            JobStatus::Failed => ResponseView::previous_failed(),
        }
    }
}

impl Response {
    /// The report on a completed job.
    pub fn report(request: &VerificationRequest, result: &VerifiedResult) -> (reply: Response)
        ensures
            reply@ == ResponseView::report(request@, result@),
    {
        let message = if result.is_verified {
            "On chain program verified".to_owned()
        } else {
            "On chain program not verified".to_owned()
        };
        Response::Report {
            is_verified: result.is_verified,
            message,
            on_chain_hash: result.on_chain_hash.clone(),
            executable_hash: result.executable_hash.clone(),
            repo_url: request.repo_reference(),
        }
    }

    /// The acknowledgment of a newly accepted job.
    pub fn started(tracking_id: String) -> (reply: Response)
        ensures
            reply@ == ResponseView::started(tracking_id@),
    {
        Response::Acknowledged {
            status: JobStatus::InProgress,
            request_id: tracking_id,
            message: "Build verification started".to_owned(),
        }
    }

    /// The acknowledgment given while the same work is under way.
    pub fn already_in_progress(tracking_id: String) -> (reply: Response)
        ensures
            reply@ == ResponseView::already_in_progress(tracking_id@),
    {
        Response::Acknowledged {
            status: JobStatus::InProgress,
            request_id: tracking_id,
            message: "Build verification already in progress".to_owned(),
        }
    }

    /// The conflict reported when the same work failed before.
    pub fn previous_failed() -> (reply: Response)
        ensures
            reply@ == ResponseView::previous_failed(),
    {
        Response::Conflict {
            status: Status::Error,
            error: "The previous request has already been processed, but unfortunately, the verification process has failed.".to_owned(),
        }
    }

    /// The error reported when a new job could not be recorded.
    pub fn not_recorded() -> (reply: Response)
        ensures
            reply@ == ResponseView::not_recorded(),
    {
        Response::InternalError {
            status: Status::Error,
            error: "An unforeseen database error has occurred, preventing the initiation of the build process. Kindly try again after some time.".to_owned(),
        }
    }

    /// The error reported when a completed job has no stored verdict.
    pub fn verdict_missing() -> (reply: Response)
        ensures
            reply@ == ResponseView::verdict_missing(),
    {
        Response::InternalError {
            status: Status::Error,
            error: "The build is recorded as completed, but its verification result could not be found.".to_owned(),
        }
    }

    /// The class of outcome the reply stands for.
    pub fn status_class(&self) -> (class: StatusClass)
        ensures
            class == self@.class(),
    {
        match self {
            Response::Report { .. } => StatusClass::Success,
            Response::Acknowledged { .. } => StatusClass::Success,
            Response::Conflict { .. } => StatusClass::Conflict,
            Response::InternalError { .. } => StatusClass::ServerError,
        }
    }

    /// Projects a stored job, with the verdict stored for its program if any,
    /// onto the reply a caller sees. `tracking_id` is the identifier an
    /// acknowledgment carries.
    pub fn project(
        job: &JobRecord,
        result: Option<&VerifiedResult>,
        tracking_id: String,
    ) -> (reply: Response)
        ensures
            reply@ == ResponseView::project(job@, result.deep_view(), tracking_id@),
    {
        match job.status {
            JobStatus::Completed => match result {
                Some(found) => Response::report(&job.request, found),
                None => Response::verdict_missing(),
            },
            JobStatus::InProgress => Response::already_in_progress(tracking_id),
            JobStatus::Failed => Response::previous_failed(),
        }
    }
}

} // verus!
