//! Tracking identifiers: random version-4 UUIDs in their usual text form.

use vstd::prelude::*;

verus! {

/// A lower-case hexadecimal digit.
pub open spec fn is_lower_hex(c: char) -> bool {
    ('0' <= c && c <= '9') || ('a' <= c && c <= 'f')
}

/// The hyphenated text form of a random (version 4) UUID: 36 characters,
/// hyphens after the 8th, 12th, 16th and 20th digit, lower-case hexadecimal
/// digits elsewhere, the version digit `4` and a variant digit among
/// `8`, `9`, `a`, `b`.
pub open spec fn is_tracking_id(s: Seq<char>) -> bool {
    &&& s.len() == 36
    &&& s[8] == '-' && s[13] == '-' && s[18] == '-' && s[23] == '-'
    &&& forall|i: int|
        0 <= i < 36 && i != 8 && i != 13 && i != 18 && i != 23 ==> is_lower_hex(#[trigger] s[i])
    &&& s[14] == '4'
    &&& (s[19] == '8' || s[19] == '9' || s[19] == 'a' || s[19] == 'b')
}

/// A fresh identifier from `uuid::Uuid::new_v4`, written out by the UUID's
/// `Display` impl (`to_string`), which gives the lower-case hyphenated form.
///
/// The digits are random, so only the shape is promised. `new_v4` stops the
/// process when the operating system cannot supply random bytes.
#[verifier::external_body]
pub(crate) fn fresh_tracking_id() -> (id: String)
    ensures
        is_tracking_id(id@),
{
    uuid::Uuid::new_v4().to_string()
}

} // verus!
