//! What can go wrong around a job, and how the dispatcher classes it.

use vstd::prelude::*;

verus! {

/// Why a job record store refused or failed an operation.
#[derive(Debug, Clone, Copy, PartialEq, Eq, Structural)]
pub enum StoreError {
    /// The store could not be reached or did not answer.
    Unavailable,
    /// A job with the same identifier is already recorded.
    DuplicateId,
    /// No job with the identifier is recorded.
    UnknownJob,
    /// The life cycle does not allow the move: the job has ended, or the new
    /// status is not an end.
    InvalidTransition,
}

/// The failure of a verification worker.
#[derive(Debug, PartialEq, Eq)]
pub struct WorkerError {
    /// What the worker reported.
    pub reason: String,
}

/// The kinds of fault the dispatcher tells apart.
#[derive(Debug, Clone, Copy, PartialEq, Eq, Structural)]
pub enum Fault {
    /// The search for an earlier job failed. The request goes on as if
    /// nothing had been found.
    DuplicateLookup,
    /// The store failed to record a job, a verdict or a status.
    Persistence,
    /// The worker failed. The job ends as failed.
    Worker,
    /// A job is recorded as completed but its verdict cannot be had.
    InconsistentState,
}

impl Fault {
    /// The fault behind a store write that went wrong, if it did.
    pub open spec fn of_write(outcome: Result<(), StoreError>) -> Option<Fault> {
        if outcome is Err {
            Some(Fault::Persistence)
        } else {
            None
        }
    }

    /// Classes the outcome of a store write made after a worker finished.
    /// Such a failure is noted and goes no further.
    pub fn absorbed(outcome: &Result<(), StoreError>) -> (fault: Option<Fault>)
        ensures
            fault == Fault::of_write(*outcome),
    {
        match outcome {
            Ok(_) => None,
            Err(_) => Some(Fault::Persistence),
        }
    }
}

} // verus!
