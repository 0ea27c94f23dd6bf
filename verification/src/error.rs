//! Why a token is refused.

use vstd::prelude::*;

verus! {

/// The reason for which verification refuses a token.
#[derive(Clone, Copy, Debug, PartialEq, Eq, Structural)]
pub enum Error {
    /// The string is not a well-formed signed envelope, or the envelope lacks
    /// a timestamp or the payload.
    MalformedToken,
    /// The signature does not verify against the key.
    InvalidSignature,
    /// The current time, with the tolerance added, is before the instant from
    /// which the token is valid.
    NotYetValid,
    /// The current time, with the tolerance taken off, is after the instant at
    /// which the token expires.
    Expired,
}

/// The reason for which the signer refuses to open a token.  The signer
/// judges the signature and the structure, never the timestamps.
#[derive(Clone, Copy, Debug, PartialEq, Eq, Structural)]
pub enum SignerError {
    /// The signature does not verify against the key.
    InvalidSignature,
    /// Any other refusal: the string does not split into three parts, a part
    /// does not decode, the header names another algorithm, a timestamp is
    /// absent.
    Malformed,
}

impl SignerError {
    /// The refusal as verification reports it.
    pub open spec fn reported(self) -> Error {
        match self {
            SignerError::InvalidSignature => Error::InvalidSignature,
            SignerError::Malformed => Error::MalformedToken,
        }
    }

    /// The refusal as verification reports it.
    pub fn report(self) -> (e: Error)
        ensures
            e == self.reported(),
    {
        match self {
            SignerError::InvalidSignature => Error::InvalidSignature,
            SignerError::Malformed => Error::MalformedToken,
        }
    }
}

} // verus!
