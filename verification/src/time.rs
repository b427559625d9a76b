//! Timestamps.
//!
//! A timestamp of the model is a `chrono::NaiveDateTime` that is read as UTC.
//! The model stores timestamps and hands them back; it never looks inside one.

use vstd::prelude::*;

verus! {

/// `chrono::NaiveDateTime`, a calendar date with a time of day and no time
/// zone attached. The declaration makes the type known and claims nothing of
/// its values.
#[verifier::external_type_specification]
#[verifier::external_body]
pub struct ExNaiveDateTime(chrono::NaiveDateTime);

} // verus!
