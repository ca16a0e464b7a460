use vstd::prelude::*;
use std::time::{Duration, SystemTime, SystemTimeError, UNIX_EPOCH};

verus! {

#[verifier::external_type_specification]
#[verifier::external_body]
pub struct ExSystemTime(SystemTime);

#[verifier::external_type_specification]
#[verifier::external_body]
pub struct ExSystemTimeError(SystemTimeError);

/// Relies on `SystemTime::now`: the current time of the system clock.
pub assume_specification[ SystemTime::now ]() -> SystemTime;

/// Relies on `SystemTime::duration_since`, taken from the Unix epoch: the
/// time elapsed since then, or an error where the clock stands before it.
#[verifier::external_body]
fn elapsed_since_epoch(now: &SystemTime) -> Result<Duration, SystemTimeError> {
    now.duration_since(UNIX_EPOCH)
}

/// Relies on `Duration::as_millis`: the whole milliseconds in the duration.
pub assume_specification[ Duration::as_millis ](d: &Duration) -> u128;

/// The largest value of an `i64`, as a count of milliseconds.
pub const MAX_MILLIS: u128 = 9223372036854775807;

/// A count of milliseconds as an `i64`, where it fits.
pub fn millis_to_i64(ms: u128) -> (r: Option<i64>)
    ensures
        r == (if ms <= MAX_MILLIS {
            Some(ms as i64)
        } else {
            None::<i64>
        }),
{
    if ms <= MAX_MILLIS {
        Some(ms as i64)
    } else {
        None
    }
}

/// The milliseconds since the Unix epoch by the system clock. `None` where
/// the clock stands before the epoch or beyond what an `i64` holds.
pub fn since_epoch_in_ms() -> (r: Option<i64>)
    ensures
        r is Some ==> r->0 >= 0,
{
    let now = SystemTime::now();
    match elapsed_since_epoch(&now) {
        Ok(d) => {
            let ms: u128 = d.as_millis();
            millis_to_i64(ms)
        },
        Err(_) => None,
    }
}

} // verus!
