//! The boundary to the signer.
//!
//! The `jsonwebtoken` crate signs claims into a token and opens a token
//! again.  Nothing in this module is proved: each function states what is
//! taken on trust about the call that it makes.

use vstd::prelude::*;
use jsonwebtoken::errors::ErrorKind;
use serde_json::Value;
use crate::claims::{Claims, ClaimsView, Envelope, EnvelopeView};
use crate::error::SignerError;

verus! {

/// The token into which `jsonwebtoken::encode` signs `claims` under the
/// HMAC secret `secret`, with the default header.
pub uninterp spec fn sealed(secret: Seq<u8>, claims: ClaimsView) -> Seq<char>;

/// What `jsonwebtoken::decode` finds in `token` under the HMAC secret
/// `secret` when it checks the signature and the structure and leaves the
/// timestamps unjudged.
pub uninterp spec fn opened(secret: Seq<u8>, token: Seq<char>) -> Result<EnvelopeView, SignerError>;

/// Under `secret`, the signer opens `token` to exactly `claims`.
pub open spec fn carries(token: Seq<char>, secret: Seq<u8>, claims: ClaimsView) -> bool {
    opened(secret, token) == Ok::<EnvelopeView, SignerError>(claims.envelope())
}

/// A signer's outcome with its envelope taken by its view.
pub open spec fn outcome_view(outcome: Result<Envelope, SignerError>) -> Result<
    EnvelopeView,
    SignerError,
> {
    match outcome {
        Ok(envelope) => Ok(envelope@),
        Err(e) => Err(e),
    }
}

/// Signs `claims` with `jsonwebtoken::encode`, under the default header
/// (HS256) and the key that `EncodingKey::from_secret` makes of `secret`.
/// The claims are written as the object `{"exp", "nbf", "inner"}`, in this
/// order.
///
/// Trusted: the token depends on the secret and the claims alone; and
/// opening it under the same secret gives these claims back, because
/// `decode` computes the same HMAC over the same two parts and compares, and
/// `serde_json` reads a `u64` and a string back as it wrote them.  With an
/// HMAC key and the HS256 header `encode` has no path to an error.
#[verifier::external_body]
pub(crate) fn seal(claims: &Claims, secret: &[u8]) -> (token: String)
    ensures
        token@ == sealed(secret@, claims@),
        carries(token@, secret@, claims@),
{
    let mut body = serde_json::Map::new();
    body.insert("exp".to_string(), Value::from(claims.exp));
    body.insert("nbf".to_string(), Value::from(claims.nbf));
    body.insert("inner".to_string(), Value::from(claims.inner.as_str()));
    let key = jsonwebtoken::EncodingKey::from_secret(secret);
    jsonwebtoken::encode(&jsonwebtoken::Header::default(), &body, &key).expect(
        "an HMAC secret signs any claims",
    )
}

/// Opens `token` with `jsonwebtoken::decode`, under the key that
/// `DecodingKey::from_secret` makes of `secret` and a `Validation` that
/// admits HS256 alone, requires the claims `nbf` and `exp` and validates
/// neither of them against the clock.  Each field of the envelope is read
/// from the claims object with `as_u64` or `as_str`.
///
/// Trusted: the outcome depends on the secret and the token alone.
#[verifier::external_body]
pub(crate) fn open(token: &str, secret: &[u8]) -> (outcome: Result<Envelope, SignerError>)
    ensures
        outcome_view(outcome) == opened(secret@, token@),
{
    let mut policy = jsonwebtoken::Validation::default();
    policy.set_required_spec_claims(&["nbf", "exp"]);
    policy.validate_exp = false;
    policy.validate_nbf = false;
    let key = jsonwebtoken::DecodingKey::from_secret(secret);
    match jsonwebtoken::decode::<Value>(token, &key, &policy) {
        Ok(data) => {
            let (exp, nbf) = (data.claims["exp"].as_u64(), data.claims["nbf"].as_u64());
            Ok(Envelope { exp, nbf, inner: data.claims["inner"].as_str().map(String::from) })
        },
        Err(e) => match e.kind() {
            ErrorKind::InvalidSignature => Err(SignerError::InvalidSignature),
            _ => Err(SignerError::Malformed),
        },
    }
}

} // verus!
