//! Wall-clock and monotonic time.
use std::time::{Instant, SystemTime, UNIX_EPOCH};
use vstd::prelude::*;

verus! {

#[verifier::external_type_specification]
#[verifier::external_body]
pub struct ExInstant(Instant);

/// Milliseconds since the Unix epoch as the system clock reads them
/// (`SystemTime::now().duration_since(UNIX_EPOCH)`), `None` when the clock reads
/// a time before the epoch. Nothing is stated of the value: it is the time.
#[verifier::external_body]
fn system_millis() -> (ms: Option<u128>) {
    match SystemTime::now().duration_since(UNIX_EPOCH) {
        Ok(d) => Some(d.as_millis()),
        Err(_) => None,
    }
}

/// A clock reading as a `u64` count of milliseconds: 0 for a clock before the epoch,
/// the reading truncated to 64 bits otherwise.
pub fn millis_as_u64(ms: Option<u128>) -> (r: u64)
    ensures
        r == match ms {
            Some(m) => m as u64,
            None => 0u64,
        },
{
    match ms {
        Some(m) => #[verifier::truncate] (m as u64),
        None => 0,
    }
}

/// The current time in milliseconds since the Unix epoch.
pub fn now_ms() -> u64 {
    millis_as_u64(system_millis())
}

/// `Instant::now`: a reading of the monotonic clock.
#[verifier::external_body]
pub(crate) fn instant_now() -> Instant {
    Instant::now()
}

/// Whole seconds elapsed since `t` (`Instant::elapsed().as_secs()`). Nothing is
/// stated of the value: it is the time.
#[verifier::external_body]
pub(crate) fn elapsed_secs(t: &Instant) -> u64 {
    t.elapsed().as_secs()
}

} // verus!
