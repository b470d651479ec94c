//! Wall-clock time as whole seconds since the Unix epoch.

use vstd::prelude::*;

verus! {

/// Reads the system clock with `std::time::SystemTime::now` and measures it
/// against `SystemTime::UNIX_EPOCH` with `duration_since`: the whole seconds
/// elapsed since the epoch, or `None` where the clock reads an instant
/// before the epoch.
///
/// Nothing is claimed about the value: it differs from call to call.
#[verifier::external_body]
fn seconds_since_epoch() -> (elapsed: Option<u64>) {
    match std::time::SystemTime::now().duration_since(std::time::SystemTime::UNIX_EPOCH) {
        Ok(elapsed) => Some(elapsed.as_secs()),
        Err(_) => None,
    }
}

/// The instant that a clock reading stands for: the seconds it counted, and
/// the epoch itself for a clock that reads an instant before the epoch.
pub open spec fn epoch_of(elapsed: Option<u64>) -> u64 {
    match elapsed {
        Some(seconds) => seconds,
        None => 0,
    }
}

/// The instant in seconds since the Unix epoch that a clock reading stands
/// for.
pub fn unix_epoch_of(elapsed: Option<u64>) -> (now: u64)
    ensures
        now == epoch_of(elapsed),
{
    match elapsed {
        Some(seconds) => seconds,
        None => 0,
    }
}

/// The current instant in whole seconds since the Unix epoch, as the system
/// clock reads it. A clock that reads an instant before the epoch counts as
/// standing at the epoch. The value differs from call to call, so nothing
/// more is claimed of it.
pub fn current_unix_epoch() -> (now: u64) {
    unix_epoch_of(seconds_since_epoch())
}

} // verus!
