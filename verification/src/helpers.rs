//! Small shared helpers of the core.

use vstd::prelude::*;

verus! {

/// Relies on `chrono::Utc::now`: seconds since the Unix epoch by the local
/// clock, clamped at zero. The clock decides the value; nothing is promised
/// of it.
#[verifier::external_body]
pub fn current_timestamp() -> u64 {
    let now = chrono::Utc::now().timestamp();
    if now < 0 {
        0
    } else {
        now as u64
    }
}

} // verus!
