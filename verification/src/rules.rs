use vstd::prelude::*;
use crate::types::{CircuitBreakerState, Error, PauseLevel};

verus! {

/// Most guardians the breaker will hold.
pub const MAX_GUARDIANS: u32 = 20;

/// Longest description a pause may carry, in bytes.
pub const MAX_DESCRIPTION_LEN: u32 = 256;

/// Longest pause that may be requested, in seconds (30 days).
pub const MAX_PAUSE_DURATION_SECS: u64 = 2592000;

/// A pause duration is acceptable when it is `0` (no expiry) or at most
/// [`MAX_PAUSE_DURATION_SECS`].
pub open spec fn duration_ok(duration_secs: u64) -> bool {
    duration_secs == 0 || duration_secs <= MAX_PAUSE_DURATION_SECS
}

/// Validate a pause duration (0 = no expiry, otherwise at most 30 days).
pub fn validate_duration(duration_secs: u64) -> (r: Result<(), Error>)
    ensures
        r is Ok <==> duration_ok(duration_secs),
        r is Err ==> r == Err::<(), Error>(Error::InvalidPauseDuration),
{
    if duration_secs != 0 && duration_secs > MAX_PAUSE_DURATION_SECS {
        return Err(Error::InvalidPauseDuration);
    }
    Ok(())
}

/// A description is acceptable when it holds at most
/// [`MAX_DESCRIPTION_LEN`] bytes.
pub open spec fn description_ok(description: Seq<u8>) -> bool {
    description.len() <= MAX_DESCRIPTION_LEN
}

/// Validate the length of a description, in bytes.
pub fn validate_description(description: &Vec<u8>) -> (r: Result<(), Error>)
    ensures
        r is Ok <==> description_ok(description@),
        r is Err ==> r == Err::<(), Error>(Error::PauseDescriptionTooLong),
{
    if description.len() > MAX_DESCRIPTION_LEN as usize {
        return Err(Error::PauseDescriptionTooLong);
    }
    Ok(())
}

/// A deadline has passed: it is set (non-zero) and the clock has gone
/// beyond it.  At the deadline itself the deadline still holds.
pub open spec fn expired(expires_at: u64, now: u64) -> bool {
    expires_at != 0 && now > expires_at
}

/// Whether the deadline `expires_at` has passed at ledger time `now`: the
/// ledger time exceeds it (a deadline of `0` never passes).
pub fn is_expired(expires_at: u64, now: u64) -> (r: bool)
    ensures
        r == expired(expires_at, now),
{
    expires_at != 0 && now > expires_at
}

/// The deadline of something that starts at `now` and lasts `duration_secs`
/// seconds; a duration of `0` gives the deadline `0`, which never passes.
pub open spec fn deadline(now: u64, duration_secs: u64) -> u64 {
    if duration_secs == 0 {
        0
    } else {
        (now + duration_secs) as u64
    }
}

/// Whether [`deadline`] can be computed without overflow.
pub open spec fn deadline_fits(now: u64, duration_secs: u64) -> bool {
    duration_secs == 0 || now + duration_secs <= u64::MAX
}

/// Computes [`deadline`].
pub fn compute_deadline(now: u64, duration_secs: u64) -> (r: u64)
    requires
        deadline_fits(now, duration_secs),
    ensures
        r == deadline(now, duration_secs),
{
    if duration_secs == 0 {
        0
    } else {
        now + duration_secs
    }
}

/// Writes (tracking events, product registration) go ahead unless the
/// breaker is paused at Partial, Full or Emergency level.
pub open spec fn writes_allowed(s: CircuitBreakerState) -> bool {
    !s.is_paused || s.level == PauseLevel::Advisory
}

/// Mutations go ahead unless the breaker is paused at Full or Emergency level.
pub open spec fn mutations_allowed(s: CircuitBreakerState) -> bool {
    !s.is_paused || s.level == PauseLevel::Advisory || s.level == PauseLevel::Partial
}

/// Reads go ahead unless the breaker is paused at Emergency level.
pub open spec fn reads_allowed(s: CircuitBreakerState) -> bool {
    !s.is_paused || s.level != PauseLevel::Emergency
}

/// Decides [`writes_allowed`] for a state.
pub fn writes_allowed_in(s: &CircuitBreakerState) -> (r: bool)
    ensures
        r == writes_allowed(*s),
{
    if !s.is_paused {
        return true;
    }
    match s.level {
        PauseLevel::Advisory => true,
        _ => false,
    }
}

/// Decides [`mutations_allowed`] for a state.
pub fn mutations_allowed_in(s: &CircuitBreakerState) -> (r: bool)
    ensures
        r == mutations_allowed(*s),
{
    if !s.is_paused {
        return true;
    }
    match s.level {
        PauseLevel::Advisory | PauseLevel::Partial => true,
        _ => false,
    }
}

/// Decides [`reads_allowed`] for a state.
pub fn reads_allowed_in(s: &CircuitBreakerState) -> (r: bool)
    ensures
        r == reads_allowed(*s),
{
    if !s.is_paused {
        return true;
    }
    match s.level {
        PauseLevel::Emergency => false,
        _ => true,
    }
}

} // verus!
