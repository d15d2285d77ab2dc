//! The wall clock.
use vstd::prelude::*;

verus! {

/// `SystemTime::now` measured from `UNIX_EPOCH`, in whole seconds; `None`
/// when the clock reads a time before the epoch. The reading depends on the
/// moment of the call, so nothing is stated of it.
#[verifier::external_body]
pub(crate) fn unix_time_secs() -> (secs: Option<u64>) {
    match std::time::SystemTime::now().duration_since(std::time::UNIX_EPOCH) {
        Ok(elapsed) => Some(elapsed.as_secs()),
        Err(_) => None,
    }
}

/// The current time in seconds since the Unix epoch; a clock that reads
/// before the epoch counts as the epoch itself.
pub(crate) fn current_timestamp() -> u64 {
    match unix_time_secs() {
        Some(secs) => secs,
        None => 0,
    }
}

} // verus!
