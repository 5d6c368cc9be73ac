//! The wall clock, in whole seconds since the Unix epoch.

use vstd::prelude::*;
use std::time::{Duration, SystemTime, SystemTimeError};

verus! {

/// A point in time of std; nothing of it is visible here.
#[verifier::external_type_specification]
#[verifier::external_body]
pub struct ExSystemTime(SystemTime);

/// The failure of `SystemTime::duration_since`: the other point is later.
#[verifier::external_type_specification]
#[verifier::external_body]
pub struct ExSystemTimeError(SystemTimeError);

/// `SystemTime::now` of std: the current time; nothing is known of it.
pub assume_specification[ SystemTime::now ]() -> SystemTime
;

/// `SystemTime::duration_since` of std: the span from `earlier` to `t`, or a
/// failure; nothing is known of either.
pub assume_specification[ SystemTime::duration_since ](
    t: &SystemTime,
    earlier: SystemTime,
) -> Result<Duration, SystemTimeError>
;

/// What `Duration::as_secs` of std returns for a span: its whole seconds.
pub uninterp spec fn whole_seconds(d: Duration) -> u64;

/// `Duration::as_secs` of std: the whole seconds of the span, a function of
/// the span alone.
pub assume_specification[ Duration::as_secs ](d: &Duration) -> (secs: u64)
    ensures
        secs == whole_seconds(*d),
;

/// `SystemTime::UNIX_EPOCH` of std, the point from which seconds are counted.
#[verifier::external_body]
fn unix_epoch() -> SystemTime {
    SystemTime::UNIX_EPOCH
}

/// The seconds since the Unix epoch that an answer of
/// `SystemTime::duration_since` stands for: the whole seconds of the span
/// from the epoch, and 0 where the clock stands before the epoch.
pub open spec fn seconds_of(elapsed: Result<Duration, SystemTimeError>) -> u64 {
    match elapsed {
        Ok(span) => whole_seconds(span),
        Err(_) => 0,
    }
}

/// The seconds since the Unix epoch, given what the clock answered when it
/// was asked for the span from the epoch to now.
pub fn epoch_seconds(elapsed: Result<Duration, SystemTimeError>) -> (secs: u64)
    ensures
        secs == seconds_of(elapsed),
{
    match elapsed {
        Ok(span) => span.as_secs(),
        Err(_) => 0,
    }
}

/// The current time in seconds since the Unix epoch; 0 where the clock
/// stands before the epoch. The clock is asked once, and the result is what
/// `epoch_seconds` makes of its answer, whatever that is.
pub fn unix_now() -> (secs: u64)
    ensures
        exists|elapsed: Result<Duration, SystemTimeError>| secs == seconds_of(elapsed),
{
    let elapsed = SystemTime::now().duration_since(unix_epoch());
    let ghost answer = elapsed;
    let secs = epoch_seconds(elapsed);
    assert(secs == seconds_of(answer));
    secs
}

} // verus!
