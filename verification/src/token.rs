//! Issuing and verifying session tokens.

use vstd::prelude::*;
use crate::claims::{expiry_fits, issued, lemma_issued_wf, Claims, Envelope, EnvelopeView};
use crate::duration::{whole_secs, Duration};
use crate::error::{Error, SignerError};
use crate::key::{DecodingKey, EncodingKey};
use crate::clock::time_since_epoch;
use crate::signer::{carries, open, opened, outcome_view, seal, sealed};
use crate::window::{check_window, in_window, window_verdict, LEEWAY};

verus! {

/// The result of a verification with its payload taken by its view.
pub open spec fn payload_view(r: Result<String, Error>) -> Result<Seq<char>, Error> {
    match r {
        Ok(inner) => Ok(inner@),
        Err(e) => Err(e),
    }
}

/// What verification at `now` makes of an envelope: a missing field is a
/// malformed token; otherwise the window decides, and inside it the payload
/// is handed out.
pub open spec fn envelope_verdict(envelope: EnvelopeView, now: nat) -> Result<Seq<char>, Error> {
    match (envelope.exp, envelope.nbf, envelope.inner) {
        (Some(exp), Some(nbf), Some(inner)) => match window_verdict(exp, nbf, now) {
            Ok(_) => Ok(inner),
            Err(e) => Err(e),
        },
        _ => Err(Error::MalformedToken),
    }
}

/// What verification at `now` makes of the signer's outcome: a refusal of
/// the signer is reported as it is, before any look at the clock.
pub open spec fn verdict(outcome: Result<EnvelopeView, SignerError>, now: nat) -> Result<
    Seq<char>,
    Error,
> {
    match outcome {
        Ok(envelope) => envelope_verdict(envelope, now),
        Err(e) => Err(e.reported()),
    }
}

/// What verifying `token` against `secret` gives at the instant `now`.
pub open spec fn decode_verdict(token: Seq<char>, secret: Seq<u8>, now: Duration) -> Result<
    Seq<char>,
    Error,
> {
    verdict(opened(secret, token), whole_secs(now@))
}

/// The token issued at `now` under `secret` for the payload `inner`, valid
/// for `length`.
pub open spec fn issued_token(
    inner: Seq<char>,
    length: Duration,
    secret: Seq<u8>,
    now: Duration,
) -> Seq<char> {
    sealed(secret, issued(inner, length, now))
}

/// `token` is the one issued at `now` under `secret` for `inner`, valid for
/// `length`, and the signer opens it to the claims with which it was issued.
pub open spec fn issues(
    token: Seq<char>,
    inner: Seq<char>,
    length: Duration,
    secret: Seq<u8>,
    now: Duration,
) -> bool {
    &&& expiry_fits(length, now)
    &&& token == issued_token(inner, length, secret, now)
    &&& carries(token, secret, issued(inner, length, now))
}

/// `r` is what issuing at `now` gives: a refusal where the expiry does not
/// fit, and else the token issued at `now`.
pub open spec fn encoded_at(
    r: Option<String>,
    inner: Seq<char>,
    length: Duration,
    secret: Seq<u8>,
    now: Duration,
) -> bool {
    &&& r is Some <==> expiry_fits(length, now)
    &&& r matches Some(token) ==> issues(token@, inner, length, secret, now)
}

/// Judges at `current_time_since_epoch` what the signer made of a token.
pub fn validate(outcome: Result<Envelope, SignerError>, current_time_since_epoch: Duration) -> (r:
    Result<String, Error>)
    ensures
        payload_view(r) == verdict(outcome_view(outcome), whole_secs(current_time_since_epoch@)),
{
    let envelope: Envelope = match outcome {
        Ok(envelope) => envelope,
        Err(e) => {
            return Err(e.report());
        },
    };
    match (envelope.exp, envelope.nbf, envelope.inner) {
        (Some(exp), Some(nbf), Some(inner)) => {
            match check_window(exp, nbf, current_time_since_epoch.as_secs()) {
                Ok(_) => Ok(inner),
                Err(e) => Err(e),
            }
        },
        _ => Err(Error::MalformedToken),
    }
}

/// Issues at `current_time_since_epoch` a token for `inner` that stays valid
/// for `length`.
///
/// Verified at the instant of issue against the same secret, the token gives
/// the payload back.
pub fn encode_internal(
    inner: String,
    length: Duration,
    ek: &EncodingKey,
    current_time_since_epoch: Duration,
) -> (token: String)
    requires
        expiry_fits(length, current_time_since_epoch),
    ensures
        token@ == issued_token(inner@, length, ek@, current_time_since_epoch),
        carries(token@, ek@, issued(inner@, length, current_time_since_epoch)),
        decode_verdict(token@, ek@, current_time_since_epoch) == Ok::<Seq<char>, Error>(inner@),
{
    let ghost payload = inner@;
    let claims = Claims::new(inner, length, current_time_since_epoch);
    let token = seal(&claims, ek.as_bytes());
    proof {
        lemma_round_trip(token@, ek@, payload, length, current_time_since_epoch);
    }
    token
}

/// Verifies `token` against `dk` at `current_time_since_epoch`.
pub fn decode_internal(token: &str, dk: &DecodingKey, current_time_since_epoch: Duration) -> (r:
    Result<String, Error>)
    ensures
        payload_view(r) == decode_verdict(token@, dk@, current_time_since_epoch),
{
    validate(open(token, dk.as_bytes()), current_time_since_epoch)
}

/// Issues at `now` a token for `inner` that stays valid for `length`, where
/// its expiry is an instant that a `u64` of seconds can hold, and refuses
/// where it is not.
pub fn encode_at(inner: String, length: Duration, ek: &EncodingKey, now: Duration) -> (r: Option<
    String,
>)
    ensures
        r is Some <==> expiry_fits(length, now),
        r matches Some(token) ==> issues(token@, inner@, length, ek@, now),
{
    if now.checked_add(length).is_some() {
        Some(encode_internal(inner, length, ek, now))
    } else {
        None
    }
}

/// Issues now a token for `inner` that stays valid for `length`: what
/// [`encode_at`] gives at the instant read from the system clock.  A token of
/// no validity is always issued.
///
/// Without the time no token can be issued: the program stops if the system
/// clock is set before the Unix epoch.
pub fn encode(inner: String, length: Duration, ek: &EncodingKey) -> (r: Option<String>)
    ensures
        exists|at: Duration| at.wf() && #[trigger] encoded_at(r, inner@, length, ek@, at),
        length@ == 0 ==> r is Some,
{
    let now: Duration = time_since_epoch();
    let r = encode_at(inner, length, ek, now);
    proof {
        assert(encoded_at(r, inner@, length, ek@, now));
        now.lemma_whole_secs_fit();
    }
    r
}

/// Verifies `token` against `dk` now: what [`decode_internal`] gives at the
/// instant read from the system clock.
///
/// Without the time no token can be judged: the program stops if the system
/// clock is set before the Unix epoch.
pub fn decode(token: &str, dk: &DecodingKey) -> (r: Result<String, Error>)
    ensures
        exists|at: Duration|
            at.wf() && payload_view(r) == #[trigger] decode_verdict(token@, dk@, at),
{
    let now: Duration = time_since_epoch();
    decode_internal(token, dk, now)
}

/// A token verified at the instant of its issue, against the secret under
/// which it was signed, gives its payload back.
pub proof fn lemma_round_trip(
    token: Seq<char>,
    secret: Seq<u8>,
    inner: Seq<char>,
    length: Duration,
    now: Duration,
)
    requires
        carries(token, secret, issued(inner, length, now)),
    ensures
        decode_verdict(token, secret, now) == Ok::<Seq<char>, Error>(inner),
{
    lemma_issued_wf(inner, length, now);
}

/// A token verified more than the tolerance after its expiry is reported as
/// expired; the first such instant is one second past expiry and tolerance.
pub proof fn lemma_expired_after_window(
    token: Seq<char>,
    secret: Seq<u8>,
    inner: Seq<char>,
    length: Duration,
    issued_at: Duration,
    now: Duration,
)
    requires
        carries(token, secret, issued(inner, length, issued_at)),
        whole_secs(now@) >= issued(inner, length, issued_at).exp + LEEWAY + 1,
    ensures
        decode_verdict(token, secret, now) == Err::<Seq<char>, Error>(Error::Expired),
{
}

/// A token verified more than the tolerance before the instant of its issue
/// is reported as not yet valid, though its signature is good.
pub proof fn lemma_not_yet_valid_before_window(
    token: Seq<char>,
    secret: Seq<u8>,
    inner: Seq<char>,
    length: Duration,
    issued_at: Duration,
    now: Duration,
)
    requires
        carries(token, secret, issued(inner, length, issued_at)),
        whole_secs(now@) + LEEWAY < whole_secs(issued_at@),
    ensures
        decode_verdict(token, secret, now) == Err::<Seq<char>, Error>(Error::NotYetValid),
{
    lemma_issued_wf(inner, length, issued_at);
}

/// The tolerance is inclusive: a token verified exactly the tolerance after
/// its expiry still gives its payload, and one second later is expired.
pub proof fn lemma_leeway_inclusive_at_expiry(
    token: Seq<char>,
    secret: Seq<u8>,
    inner: Seq<char>,
    length: Duration,
    issued_at: Duration,
    now: Duration,
)
    requires
        carries(token, secret, issued(inner, length, issued_at)),
    ensures
        whole_secs(now@) == issued(inner, length, issued_at).exp + LEEWAY ==> decode_verdict(
            token,
            secret,
            now,
        ) == Ok::<Seq<char>, Error>(inner),
        whole_secs(now@) == issued(inner, length, issued_at).exp + LEEWAY + 1 ==> decode_verdict(
            token,
            secret,
            now,
        ) == Err::<Seq<char>, Error>(Error::Expired),
{
    lemma_issued_wf(inner, length, issued_at);
}

/// A token that the signer refuses is refused for the signer's reason at
/// every instant: the clock is not consulted.
pub proof fn lemma_refusal_ignores_clock(
    token: Seq<char>,
    secret: Seq<u8>,
    refusal: SignerError,
    now: Duration,
)
    requires
        opened(secret, token) == Err::<EnvelopeView, SignerError>(refusal),
    ensures
        decode_verdict(token, secret, now) == Err::<Seq<char>, Error>(refusal.reported()),
        refusal.reported() == Error::InvalidSignature || refusal.reported()
            == Error::MalformedToken,
{
}

/// Verification hands out a payload only when the signer has accepted the
/// token under the secret and found in it this payload and both timestamps,
/// and the instant lies in the widened window between them.
pub proof fn lemma_accepted_only_as_opened(
    token: Seq<char>,
    secret: Seq<u8>,
    now: Duration,
    inner: Seq<char>,
)
    requires
        decode_verdict(token, secret, now) == Ok::<Seq<char>, Error>(inner),
    ensures
        opened(secret, token) is Ok,
        opened(secret, token)->Ok_0.inner == Some(inner),
        opened(secret, token)->Ok_0.exp is Some,
        opened(secret, token)->Ok_0.nbf is Some,
        in_window(
            opened(secret, token)->Ok_0.exp->Some_0,
            opened(secret, token)->Ok_0.nbf->Some_0,
            whole_secs(now@),
        ),
{
}

/// What verification makes, at any instant, of a token issued at
/// `issued_at`: past the widened window it is expired, before it not yet
/// valid, and inside it the payload comes back.
pub proof fn lemma_verdict_of_issued_token(
    token: Seq<char>,
    secret: Seq<u8>,
    inner: Seq<char>,
    length: Duration,
    issued_at: Duration,
    now: Duration,
)
    requires
        carries(token, secret, issued(inner, length, issued_at)),
    ensures
        decode_verdict(token, secret, now) == (if whole_secs(now@) > whole_secs(
            issued_at@ + length@,
        ) + LEEWAY {
            Err::<Seq<char>, Error>(Error::Expired)
        } else if whole_secs(now@) + LEEWAY < whole_secs(issued_at@) {
            Err::<Seq<char>, Error>(Error::NotYetValid)
        } else {
            Ok::<Seq<char>, Error>(inner)
        }),
{
}

} // verus!
