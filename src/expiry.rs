use vstd::prelude::*;

use crate::clock::now_since_epoch;
use crate::error::TokenError;

verus! {

/// Lifetime of a session token: thirty days.
pub const SESSION_LIFETIME_SECS: i64 = 2_592_000;

/// Lifetime of a password-reset token: ten minutes.
pub const PASSWORD_RESET_LIFETIME_SECS: i64 = 600;

/// The last whole second that an instant may hold: 9999-12-31T23:59:59Z, so
/// that every instant has a four-digit year and converts to any common
/// date-time representation.
pub const MAX_INSTANT_SECS: i64 = 253_402_300_799;

/// An absolute UTC instant from the Unix epoch on: whole seconds since the
/// epoch, and the nanoseconds past that second.
#[derive(Debug, Clone, Copy, PartialEq, Eq, Structural)]
pub struct UtcInstant {
    pub secs: i64,
    pub nanos: u32,
}

impl UtcInstant {
    pub open spec fn wf(self) -> bool {
        &&& 0 <= self.secs <= MAX_INSTANT_SECS
        &&& self.nanos < 1_000_000_000
    }

    /// The instant `secs` seconds later, where it stays within the range of
    /// instants.
    pub open spec fn spec_plus_seconds(self, secs: int) -> Option<UtcInstant> {
        if 0 <= self.secs + secs <= MAX_INSTANT_SECS {
            Some(UtcInstant { secs: (self.secs + secs) as i64, nanos: self.nanos })
        } else {
            None
        }
    }

    /// Adds `secs` seconds, with a check that the result stays within the
    /// range of instants.
    pub fn checked_add_seconds(&self, secs: i64) -> (r: Option<UtcInstant>)
        requires
            self.wf(),
        ensures
            r == self.spec_plus_seconds(secs as int),
            r.is_some() ==> r->Some_0.wf(),
    {
        match self.secs.checked_add(secs) {
            Some(s) => {
                if 0 <= s && s <= MAX_INSTANT_SECS {
                    Some(UtcInstant { secs: s, nanos: self.nanos })
                } else {
                    None
                }
            },
            None => None,
        }
    }
}

/// The instant `lifetime` seconds after `now`, or the overflow error.
pub open spec fn expiry_from(now: UtcInstant, lifetime: int) -> Result<UtcInstant, TokenError> {
    match now.spec_plus_seconds(lifetime) {
        Some(t) => Ok(t),
        None => Err(TokenError::Overflow),
    }
}

/// The instant `lifetime` seconds after a clock reading of `secs` seconds and
/// `subsec` nanoseconds since the epoch, or the overflow error where the
/// reading or the result lies past the range of instants.
pub open spec fn expiry_from_reading(secs: nat, subsec: nat, lifetime: int) -> Result<
    UtcInstant,
    TokenError,
> {
    if secs <= MAX_INSTANT_SECS {
        expiry_from(UtcInstant { secs: secs as i64, nanos: subsec as u32 }, lifetime)
    } else {
        Err(TokenError::Overflow)
    }
}

/// An expiry lies exactly `lifetime` seconds after the clock reading it was
/// computed from, at the same offset within the second, and it fails only
/// where that second count leaves the range of instants.
pub proof fn lemma_expiry_is_now_plus_lifetime(now: UtcInstant, lifetime: int)
    requires
        now.wf(),
    ensures
        expiry_from(now, lifetime) is Ok <==> 0 <= now.secs + lifetime <= MAX_INSTANT_SECS,
        expiry_from(now, lifetime) is Err ==> expiry_from(now, lifetime) == Err::<
            UtcInstant,
            TokenError,
        >(TokenError::Overflow),
        expiry_from(now, lifetime) is Ok ==> {
            let t = expiry_from(now, lifetime)->Ok_0;
            &&& t.secs - now.secs == lifetime
            &&& t.nanos == now.nanos
            &&& t.wf()
        },
{
}

/// Computes the instant `lifetime` seconds after `now`.
pub fn expiry_after(now: UtcInstant, lifetime: i64) -> (r: Result<UtcInstant, TokenError>)
    requires
        now.wf(),
    ensures
        r == expiry_from(now, lifetime as int),
{
    match now.checked_add_seconds(lifetime) {
        Some(t) => Ok(t),
        None => Err(TokenError::Overflow),
    }
}

/// Computes the instant `lifetime` seconds after a clock reading of `secs`
/// seconds and `subsec` nanoseconds since the epoch.
pub fn expiry_after_reading(secs: u64, subsec: u32, lifetime: i64) -> (r: Result<
    UtcInstant,
    TokenError,
>)
    requires
        subsec < 1_000_000_000,
    ensures
        r == expiry_from_reading(secs as nat, subsec as nat, lifetime as int),
        r is Ok ==> r->Ok_0.wf(),
{
    if secs > MAX_INSTANT_SECS as u64 {
        return Err(TokenError::Overflow);
    }
    expiry_after(UtcInstant { secs: secs as i64, nanos: subsec }, lifetime)
}

/// The instant `lifetime` seconds after a reading of the wall clock taken
/// here; the clock error where the clock reads a time before the epoch.
fn expiry_from_now(lifetime: i64) -> (r: Result<UtcInstant, TokenError>)
    ensures
        r == Err::<UtcInstant, TokenError>(TokenError::ClockBeforeEpoch) || exists|
            secs: u64,
            subsec: u32,
        |
            subsec < 1_000_000_000 && r == #[trigger] expiry_from_reading(
                secs as nat,
                subsec as nat,
                lifetime as int,
            ),
        r is Ok ==> r->Ok_0.wf(),
{
    match now_since_epoch() {
        Ok((secs, subsec)) => expiry_after_reading(secs, subsec, lifetime),
        Err(e) => Err(e),
    }
}

/// The instant at which a session token issued now expires: thirty days after
/// the clock reading taken here. Fails with the clock error where the clock
/// reads a time before the epoch, and with the overflow error past the range
/// of instants.
pub fn token_expired_at() -> (r: Result<UtcInstant, TokenError>)
    ensures
        r == Err::<UtcInstant, TokenError>(TokenError::ClockBeforeEpoch) || exists|
            secs: u64,
            subsec: u32,
        |
            subsec < 1_000_000_000 && r == #[trigger] expiry_from_reading(
                secs as nat,
                subsec as nat,
                SESSION_LIFETIME_SECS as int,
            ),
        r is Ok ==> r->Ok_0.wf(),
{
    expiry_from_now(SESSION_LIFETIME_SECS)
}

/// The instant at which a password-reset token issued now expires: ten
/// minutes after the clock reading taken here. Fails with the clock error
/// where the clock reads a time before the epoch, and with the overflow error
/// past the range of instants.
pub fn password_reset_token_expired_at() -> (r: Result<UtcInstant, TokenError>)
    ensures
        r == Err::<UtcInstant, TokenError>(TokenError::ClockBeforeEpoch) || exists|
            secs: u64,
            subsec: u32,
        |
            subsec < 1_000_000_000 && r == #[trigger] expiry_from_reading(
                secs as nat,
                subsec as nat,
                PASSWORD_RESET_LIFETIME_SECS as int,
            ),
        r is Ok ==> r->Ok_0.wf(),
{
    expiry_from_now(PASSWORD_RESET_LIFETIME_SECS)
}

} // verus!
