//! The one clock read the library offers.  Every derived value that
//! depends on the current instant takes it as an argument, so the engine
//! itself stays a pure function.

use vstd::prelude::*;

verus! {

/// Relies on chrono's `Utc::now().timestamp()`.  The result depends on
/// the wall clock, so nothing is promised of it.
#[verifier::external_body]
pub fn unix_now() -> i64 {
    chrono::Utc::now().timestamp()
}

} // verus!
