use std::time::{SystemTime, UNIX_EPOCH};
use vstd::prelude::*;

verus! {

#[verifier::external_type_specification]
#[verifier::external_body]
pub struct ExSystemTime(SystemTime);

/// Relies on `SystemTime::now`: the wall-clock time. Nothing is promised of
/// the value.
#[verifier::external_body]
fn system_now() -> (r: SystemTime) {
    SystemTime::now()
}

/// Relies on `SystemTime::duration_since` against `UNIX_EPOCH`: the whole
/// seconds since the epoch, or `None` for an instant before it. Nothing is
/// promised of the value.
#[verifier::external_body]
fn seconds_since_epoch(t: &SystemTime) -> (r: Option<u64>) {
    t.duration_since(UNIX_EPOCH).ok().map(|d| d.as_secs())
}

/// Seconds since the Unix epoch by the wall clock; 0 when the clock reads
/// earlier than the epoch.
pub fn now_secs() -> u64 {
    match seconds_since_epoch(&system_now()) {
        Some(secs) => secs,
        None => 0,
    }
}

} // verus!
