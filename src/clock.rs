use vstd::prelude::*;

use crate::error::TokenError;
use std::time::{SystemTime, SystemTimeError};

verus! {

#[verifier::external_type_specification]
#[verifier::external_body]
pub struct ExSystemTime(SystemTime);

#[verifier::external_type_specification]
#[verifier::external_body]
pub struct ExSystemTimeError(SystemTimeError);

/// Relies on `SystemTime::now`: a reading of the host's wall clock.
pub assume_specification[ SystemTime::now ]() -> SystemTime;

/// Relies on `SystemTime::duration_since`: the span from the Unix epoch to
/// `t`, as whole seconds and the nanoseconds past them (below one second,
/// as `Duration::subsec_nanos` documents), or an error where `t` lies before
/// the epoch.
#[verifier::external_body]
fn since_unix_epoch(t: &SystemTime) -> (r: Result<(u64, u32), SystemTimeError>)
    ensures
        r is Ok ==> r->Ok_0.1 < 1_000_000_000,
{
    t.duration_since(std::time::UNIX_EPOCH).map(|d| (d.as_secs(), d.subsec_nanos()))
}

/// Reads the wall clock as whole seconds since the Unix epoch and the
/// nanoseconds past them, or the clock error where the host clock reads a
/// time before the epoch.
pub fn now_since_epoch() -> (r: Result<(u64, u32), TokenError>)
    ensures
        r is Ok ==> r->Ok_0.1 < 1_000_000_000,
        r is Err ==> r == Err::<(u64, u32), TokenError>(TokenError::ClockBeforeEpoch),
{
    match since_unix_epoch(&SystemTime::now()) {
        Ok(reading) => Ok(reading),
        Err(_) => Err(TokenError::ClockBeforeEpoch),
    }
}

/// The nanosecond count of a span of `secs` seconds and `subsec` nanoseconds.
pub open spec fn span_nanos(secs: nat, subsec: nat) -> nat {
    secs * 1_000_000_000 + subsec
}

/// The nanosecond count of a span of `secs` seconds and `subsec` nanoseconds.
pub fn nanos_since_epoch(secs: u64, subsec: u32) -> (r: u128)
    ensures
        r == span_nanos(secs as nat, subsec as nat),
{
    assert(secs * 1_000_000_000 <= u64::MAX * 1_000_000_000) by (nonlinear_arith);
    secs as u128 * 1_000_000_000 + subsec as u128
}

/// The current wall-clock time in nanoseconds since the Unix epoch, or the
/// clock error where the host clock reads a time before the epoch.
pub fn current_timestamp() -> (r: Result<u128, TokenError>)
    ensures
        r is Ok || r == Err::<u128, TokenError>(TokenError::ClockBeforeEpoch),
        r is Ok ==> exists|secs: u64, subsec: u32|
            subsec < 1_000_000_000 && r->Ok_0 == #[trigger] span_nanos(secs as nat, subsec as nat),
{
    match now_since_epoch() {
        Ok((secs, subsec)) => Ok(nanos_since_epoch(secs, subsec)),
        Err(e) => Err(e),
    }
}

} // verus!
