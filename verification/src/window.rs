//! The validity window of a token and its check against the clock.
//!
//! All instants are whole seconds since the Unix epoch.

use vstd::prelude::*;
use crate::error::Error;

verus! {

/// Tolerance for clock skew between issuer and verifier, in seconds.  It
/// widens the validity window at both ends.
pub const LEEWAY: u64 = 60;

/// At `now`, a token that expires at `exp` is past its expiry by more than
/// the tolerance.
pub open spec fn expired(exp: nat, now: nat) -> bool {
    exp + LEEWAY < now
}

/// At `now`, a token valid from `nbf` on is still more than the tolerance
/// away from being valid.
pub open spec fn not_yet_valid(nbf: nat, now: nat) -> bool {
    now + LEEWAY < nbf
}

/// `now` lies in the window from `nbf` to `exp`, widened by the tolerance at
/// both ends.
pub open spec fn in_window(exp: nat, nbf: nat, now: nat) -> bool {
    nbf <= now + LEEWAY && now <= exp + LEEWAY
}

/// What the check of the window from `nbf` to `exp` gives at `now`.  Expiry
/// is judged first.
pub open spec fn window_verdict(exp: nat, nbf: nat, now: nat) -> Result<(), Error> {
    if expired(exp, now) {
        Err(Error::Expired)
    } else if not_yet_valid(nbf, now) {
        Err(Error::NotYetValid)
    } else {
        Ok(())
    }
}

/// Checks at `now` the window from `nbf` to `exp`.
pub fn check_window(exp: u64, nbf: u64, now: u64) -> (r: Result<(), Error>)
    ensures
        r == window_verdict(exp as nat, nbf as nat, now as nat),
{
    if now > LEEWAY && exp < now - LEEWAY {
        Err(Error::Expired)
    } else if now <= u64::MAX - LEEWAY && nbf > now + LEEWAY {
        Err(Error::NotYetValid)
    } else {
        Ok(())
    }
}

/// The check succeeds exactly at the instants of the widened window: those
/// at which `now` plus the tolerance has reached `nbf` and `now` less the
/// tolerance has not passed `exp`.
pub proof fn lemma_verdict_ok_iff_in_window(exp: nat, nbf: nat, now: nat)
    ensures
        window_verdict(exp, nbf, now) is Ok <==> in_window(exp, nbf, now),
{
}

} // verus!
