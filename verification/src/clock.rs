//! The wall clock, read through chrono.

use vstd::prelude::*;

verus! {

/// `chrono::Local::now().to_rfc3339()`: the current local time as an RFC 3339
/// string. The value depends on the clock, so nothing is stated of it.
#[verifier::external_body]
pub(crate) fn now_rfc3339() -> (res: String) {
    chrono::Local::now().to_rfc3339()
}

} // verus!
