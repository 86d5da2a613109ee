//! The wall clock.

use vstd::prelude::*;

verus! {

#[verifier::external_type_specification]
#[verifier::external_body]
pub struct ExSystemTime(std::time::SystemTime);

#[verifier::external_type_specification]
#[verifier::external_body]
pub struct ExSystemTimeError(std::time::SystemTimeError);

/// The whole milliseconds that a duration holds.
pub uninterp spec fn duration_millis(duration: std::time::Duration) -> int;

/// `SystemTime::now`: the time on the system clock. Nothing is known of it.
#[verifier::external_body]
fn system_time_now() -> std::time::SystemTime {
    std::time::SystemTime::now()
}

/// `SystemTime::duration_since` with `UNIX_EPOCH`: the time passed since
/// the epoch, or an error for a time before it.
#[verifier::external_body]
fn since_unix_epoch(time: &std::time::SystemTime) -> Result<
    std::time::Duration,
    std::time::SystemTimeError,
> {
    time.duration_since(std::time::UNIX_EPOCH)
}

/// `Duration::as_millis`: the duration in whole milliseconds.
pub assume_specification[ std::time::Duration::as_millis ](
    duration: &std::time::Duration,
) -> (millis: u128)
    ensures
        millis as int == duration_millis(*duration),
;

/// The milliseconds that stand for a reading of the clock: those passed
/// since the epoch, and 0 for a clock set before it.
pub open spec fn unix_millis_of(
    elapsed: Result<std::time::Duration, std::time::SystemTimeError>,
) -> int {
    match elapsed {
        Ok(duration) => duration_millis(duration),
        Err(_) => 0,
    }
}

/// The milliseconds that stand for a reading of the clock.
pub fn unix_millis(elapsed: Result<std::time::Duration, std::time::SystemTimeError>) -> (millis:
    u128)
    ensures
        millis as int == unix_millis_of(elapsed),
{
    match elapsed {
        Ok(duration) => duration.as_millis(),
        Err(_) => 0,
    }
}

/// The time now, in milliseconds since the Unix epoch; 0 where the system
/// clock is set before the epoch: what one reading of the clock stands for.
pub fn now_unix_millis() -> (millis: u128)
    ensures
        exists|elapsed: Result<std::time::Duration, std::time::SystemTimeError>|
            millis as int == #[trigger] unix_millis_of(elapsed),
{
    let now = system_time_now();
    let elapsed = since_unix_epoch(&now);
    let ghost reading = elapsed;
    let millis = unix_millis(elapsed);
    assert(millis as int == unix_millis_of(reading));
    millis
}

} // verus!
