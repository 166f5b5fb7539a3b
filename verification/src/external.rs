//! Declarations of the outside types that records carry, and the one
//! wall-clock call that record building makes.

use vstd::prelude::*;

verus! {

/// `serde_json::Value`: the structured value in which resource payloads and
/// generic type arguments arrive. Opaque to verification; the library only
/// carries such values through, it never looks inside one.
#[verifier::external_type_specification]
#[verifier::external_body]
pub struct ExJsonValue(serde_json::Value);

/// `chrono::NaiveDateTime`: the wall-clock timestamp stamped onto each record
/// at build time. Opaque to verification.
#[verifier::external_type_specification]
#[verifier::external_body]
pub struct ExNaiveDateTime(chrono::NaiveDateTime);

/// Relies on serde_json's derived `Clone` for `Value`: the clone is a
/// structural copy, equal to the original value.
pub assume_specification[ <serde_json::Value as Clone>::clone ](
    v: &serde_json::Value,
) -> (r: serde_json::Value)
    ensures
        r == *v,
;

/// Relies on `chrono::Utc::now`, a read of the wall clock, with `naive_utc`
/// dropping the time-zone marker. Nothing is promised of the clock's value.
#[verifier::external_body]
pub(crate) fn now_naive_utc() -> chrono::NaiveDateTime {
    chrono::Utc::now().naive_utc()
}

} // verus!
