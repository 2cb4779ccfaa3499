//! The one clock read the library makes: the current time, as unix
//! seconds, for artifact-age decisions.

use vstd::prelude::*;

verus! {

/// Relies on chrono::Utc::now (read through its unix timestamp): the
/// current time; nothing can be promised of its value. The outside call
/// itself does not return on a system clock set before the unix epoch,
/// an environmental condition no precondition can express.
#[verifier::external_body]
pub fn now_unix_seconds() -> i64 {
    chrono::Utc::now().timestamp()
}

} // verus!
