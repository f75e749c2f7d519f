//! The system clock, read through the outside time library.

use vstd::prelude::*;

verus! {

/// Relies on chrono's `Local::now` and `DateTime::timestamp`: the current
/// local time as whole seconds since the Unix epoch. The value depends on
/// the clock, so nothing is promised of it; every caller is verified for
/// every value it could return.
#[verifier::external_body]
pub(crate) fn now_timestamp() -> i64 {
    chrono::Local::now().timestamp()
}

} // verus!
