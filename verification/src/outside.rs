//! Values that only the outside world can supply: fresh identifiers and the
//! current time.

use vstd::prelude::*;

verus! {

/// Trusted: `uuid::Uuid::new_v4`, the random identifier as the 128-bit
/// integer that `Uuid::as_u128` gives. Nothing is claimed of the value: two
/// calls may return anything.
#[verifier::external_body]
pub(crate) fn fresh_id() -> u128 {
    uuid::Uuid::new_v4().as_u128()
}

/// Trusted: `chrono::Utc::now`, written out by `DateTime::to_rfc3339`.
/// Nothing is claimed of the text.
#[verifier::external_body]
pub(crate) fn current_time() -> String {
    chrono::Utc::now().to_rfc3339()
}

} // verus!
