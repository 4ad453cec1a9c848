//! The one place the library reads the wall clock.

use vstd::prelude::*;

verus! {

/// Relies on std::time::SystemTime::now, read as whole seconds since the
/// Unix epoch (zero when the clock reads earlier than the epoch). The value
/// depends on the wall clock, so nothing is claimed of it.
#[verifier::external_body]
pub(crate) fn now_unix() -> u64 {
    match std::time::SystemTime::now().duration_since(std::time::UNIX_EPOCH) {
        Ok(d) => d.as_secs(),
        Err(_) => 0,
    }
}

} // verus!
