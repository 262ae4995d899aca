//! What the library draws from its surroundings: the time of day and fresh
//! identifiers. Nothing here is proved; the contracts say what the rest of
//! the library relies on.

use vstd::prelude::*;

verus! {

/// Reads the clock with `chrono::Utc::now` and returns the instant as
/// `chrono::DateTime::timestamp` gives it, in seconds since the Unix
/// epoch. The contract claims only a range: chrono counts an instant's
/// days in 32 bits, so its seconds stay below 2^48 in size. Which instant
/// comes back is left open. chrono panics where the system clock stands
/// before the epoch.
#[verifier::external_body]
pub(crate) fn current_time() -> (now: i64)
    ensures
        -0x1_0000_0000_0000 < now < 0x1_0000_0000_0000,
{
    chrono::Utc::now().timestamp()
}

/// Draws a random identifier with `uuid::Uuid::new_v4` and returns it as
/// `uuid::Uuid::as_u128` packs it. Nothing is claimed of the value: it may
/// even be one that is already in use. uuid panics where the operating
/// system gives it no random bytes.
#[verifier::external_body]
pub(crate) fn fresh_id() -> (id: u128) {
    uuid::Uuid::new_v4().as_u128()
}

} // verus!
