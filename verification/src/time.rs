//! The clock.

use std::time::{Duration, SystemTime, SystemTimeError};
use vstd::prelude::*;

verus! {

/// `std::time::SystemTime`, carried through and never looked into.
#[verifier::external_type_specification]
#[verifier::external_body]
pub struct ExSystemTime(SystemTime);

/// `std::time::SystemTimeError`, carried through and never looked into.
#[verifier::external_type_specification]
#[verifier::external_body]
pub struct ExSystemTimeError(SystemTimeError);

/// `SystemTime::now`: the machine's time, of which nothing is promised.
pub assume_specification[ SystemTime::now ]() -> (r: SystemTime);

/// `SystemTime::duration_since` with the Unix epoch: the time gone by since then, or an error
/// where the clock stands before it.  It rests on the machine's clock, so nothing is promised.
#[verifier::external_body]
fn since_epoch(time: SystemTime) -> (r: Result<Duration, SystemTimeError>) {
    time.duration_since(std::time::UNIX_EPOCH)
}

/// `Duration::as_millis`: the whole milliseconds of a duration.  The duration came from the
/// machine's clock, so nothing is promised of their number.
#[verifier::external_body]
fn whole_millis(duration: Duration) -> (r: u128) {
    duration.as_millis()
}

/// The time from `then` to `now`; none where the clock went back.
pub open spec fn age(now: u64, then: u64) -> u64 {
    if now > then {
        (now - then) as u64
    } else {
        0
    }
}

/// The milliseconds since the Unix epoch as the engine counts them: the lowest 64 bits, and zero
/// where the clock stands before the epoch.
pub fn epoch_ms(elapsed_ms: Option<u128>) -> (r: u64)
    ensures
        r == (match elapsed_ms {
            Some(ms) => (ms as nat % 0x1_0000_0000_0000_0000) as u64,
            None => 0u64,
        }),
{
    match elapsed_ms {
        Some(ms) => (ms % 0x1_0000_0000_0000_0000) as u64,
        None => 0,
    }
}

/// The milliseconds since the Unix epoch, by the machine's clock.
pub fn now_ms() -> (r: u64) {
    match since_epoch(SystemTime::now()) {
        Ok(duration) => epoch_ms(Some(whole_millis(duration))),
        Err(_) => epoch_ms(None),
    }
}

/// The time gone by and the earlier moment make up the later one, and none has gone by where the
/// clock went back.
pub proof fn law_age(now: u64, then: u64)
    ensures
        then <= now ==> then + age(now, then) == now,
        now <= then ==> age(now, then) == 0,
{
}

} // verus!
