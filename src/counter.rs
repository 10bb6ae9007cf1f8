//! Time-step counters: whole intervals elapsed since an epoch.
use vstd::prelude::*;

use std::time::SystemTime;

use crate::error::Error;

verus! {

#[verifier::external_type_specification]
#[verifier::external_body]
pub struct ExSystemTime(std::time::SystemTime);

#[verifier::external_type_specification]
#[verifier::external_body]
pub struct ExSystemTimeError(std::time::SystemTimeError);

/// Relies on SystemTime::now: reads the system clock; nothing is known of
/// the instant returned.
pub assume_specification[ std::time::SystemTime::now ]() -> std::time::SystemTime;

/// Relies on SystemTime::duration_since: the time from `earlier` to `self`,
/// or an error when `earlier` is later than `self`.
pub assume_specification[ std::time::SystemTime::duration_since ](
    this: &std::time::SystemTime,
    earlier: std::time::SystemTime,
) -> core::result::Result<core::time::Duration, std::time::SystemTimeError>;

/// Relies on Duration::as_secs: the whole seconds of a duration.
pub assume_specification[ core::time::Duration::as_secs ](d: &core::time::Duration) -> u64;

/// The counter for `elapsed` whole seconds since the epoch.
pub open spec fn elapsed_counter(interval: u64, elapsed: u64) -> u64
    recommends
        interval > 0,
{
    elapsed / interval
}

/// What a counter request gives, from the interval and the whole seconds
/// elapsed since the epoch (`None` when the current time precedes the epoch).
pub open spec fn counter_outcome(interval: u64, elapsed: Option<u64>) -> Result<u64, Error> {
    if interval == 0 {
        Err(Error::ZeroInterval)
    } else {
        match elapsed {
            Some(e) => Ok(elapsed_counter(interval, e)),
            None => Err(Error::TimeError),
        }
    }
}

/// The counter for `elapsed_secs` whole seconds since the epoch, where
/// `None` stands for a current time before the epoch.
pub fn counter_from_elapsed(interval: u64, elapsed_secs: Option<u64>) -> (r: Result<u64, Error>)
    ensures
        r == counter_outcome(interval, elapsed_secs),
{
    if interval == 0 {
        return Err(Error::ZeroInterval);
    }
    match elapsed_secs {
        Some(e) => Ok(e / interval),
        None => Err(Error::TimeError),
    }
}

/// The counter for the current time: whole `interval`-second steps elapsed
/// since `epoch`.
pub fn get_counter(interval: u64, epoch: SystemTime) -> (r: Result<u64, Error>)
    ensures
        interval == 0 ==> r == Err::<u64, Error>(Error::ZeroInterval),
        interval > 0 ==> match r {
            Ok(c) => exists|e: u64| c == #[trigger] elapsed_counter(interval, e),
            Err(err) => err == Error::TimeError,
        },
{
    let now = SystemTime::now();
    let elapsed = match now.duration_since(epoch) {
        Ok(d) => Some(d.as_secs()),
        Err(_) => None,
    };
    let r = counter_from_elapsed(interval, elapsed);
    proof {
        if let Some(e) = elapsed {
            if interval > 0 {
                assert(r == Ok::<u64, Error>(elapsed_counter(interval, e)));
            }
        }
    }
    r
}

/// Counters never decrease as time goes on.
pub proof fn lemma_counter_monotonic(interval: u64, earlier: u64, later: u64)
    requires
        interval > 0,
        earlier <= later,
    ensures
        elapsed_counter(interval, earlier) <= elapsed_counter(interval, later),
{
    vstd::arithmetic::div_mod::lemma_div_is_ordered(earlier as int, later as int, interval as int);
}

/// Every time within one interval window gets that window's counter.
pub proof fn lemma_counter_same_window(interval: u64, window: u64, elapsed: u64)
    requires
        interval > 0,
        window * interval <= elapsed < (window + 1) * interval,
    ensures
        elapsed_counter(interval, elapsed) == window,
{
    vstd::arithmetic::div_mod::lemma_fundamental_div_mod(elapsed as int, interval as int);
    assert(elapsed / interval == window) by (nonlinear_arith)
        requires
            interval > 0,
            window * interval <= elapsed < (window + 1) * interval,
            elapsed == interval * (elapsed / interval) + elapsed % interval,
            0 <= elapsed % interval < interval,
    ;
}

} // verus!
