//! Reading the wall clock as whole seconds since the Unix epoch.

use std::time::SystemTime;
use vstd::prelude::*;

verus! {

/// `std::time::SystemTime`, a reading of the system clock. Opaque here.
#[verifier::external_type_specification]
#[verifier::external_body]
pub struct ExSystemTime(SystemTime);

/// `SystemTime::now`: the current reading of the system clock. Nothing is
/// claimed of the value.
#[verifier::external_body]
fn system_now() -> SystemTime {
    SystemTime::now()
}

/// `SystemTime::duration_since` against `UNIX_EPOCH`: the time elapsed since
/// the epoch, or `None` when the clock reads earlier than the epoch. Nothing
/// is claimed of which of the two comes back.
#[verifier::external_body]
fn since_epoch(t: &SystemTime) -> Option<std::time::Duration> {
    t.duration_since(std::time::UNIX_EPOCH).ok()
}

/// `Duration::as_secs`: the whole seconds held by a duration. Nothing is
/// claimed of the value.
#[verifier::external_body]
fn whole_seconds(d: &std::time::Duration) -> u64 {
    d.as_secs()
}

/// Seconds since the epoch for an elapsed-time reading; a clock that reads
/// earlier than the epoch counts as the epoch itself.
pub open spec fn spec_epoch_seconds(elapsed: Option<u64>) -> u64 {
    match elapsed {
        Some(secs) => secs,
        None => 0,
    }
}

/// Turns an elapsed-time reading into seconds since the epoch.
pub fn epoch_seconds(elapsed: Option<u64>) -> (r: u64)
    ensures
        r == spec_epoch_seconds(elapsed),
{
    match elapsed {
        Some(secs) => secs,
        None => 0,
    }
}

/// The current time in whole seconds since the Unix epoch.
pub fn unix_now() -> (r: u64) {
    let t = system_now();
    let elapsed = match since_epoch(&t) {
        Some(d) => Some(whole_seconds(&d)),
        None => None,
    };
    epoch_seconds(elapsed)
}

} // verus!
