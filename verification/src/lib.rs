//! Idempotent dispatch and status tracking for build verification jobs.
//!
//! A request names a unit of verification work. The dispatcher decides
//! whether that work is already known, records a new job when it is not, and
//! projects stored job state into the reply shapes callers see. The build
//! itself, the durable store and the transport are someone else's: the
//! library decides, and says what to ask of them.
//!
//! * [`request`], [`job`], [`verdict`] and [`response`] hold the data and
//!   the projection of a stored job onto a reply.
//! * [`dispatch`] holds the decisions, one step at a time, for a caller that
//!   owns the store and the worker.
//! * [`store`] describes what a job record store holds and keeps one in
//!   memory; [`service`] runs the decisions against it.
//! * [`laws`] states what holds of the dispatcher whatever the store holds.
//! * [`tracking`] and [`clock`] supply identifiers and the time.

pub mod clock;
pub mod dispatch;
pub mod error;
pub mod job;
pub mod laws;
pub mod request;
pub mod response;
pub mod service;
pub mod store;
pub mod text;
pub mod tracking;
pub mod verdict;
