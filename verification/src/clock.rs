//! The wall clock, read through `chrono`.

use vstd::prelude::*;

verus! {

/// `chrono::NaiveDateTime`, a date and time without a zone. Nothing is
/// claimed of what a value holds: the library only carries it along.
#[verifier::external_type_specification]
#[verifier::external_body]
pub struct ExNaiveDateTime(chrono::NaiveDateTime);

/// The current time in UTC, as `chrono::Utc::now` reads it from the system
/// clock, with the zone dropped by `DateTime::naive_utc`.
///
/// Nothing is promised of the value: two calls may differ in any way.
/// `Utc::now` stops the process when the system clock stands before the Unix
/// epoch.
#[verifier::external_body]
pub(crate) fn utc_now() -> chrono::NaiveDateTime {
    chrono::Utc::now().naive_utc()
}

} // verus!
