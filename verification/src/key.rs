//! Keys for the signer.

use vstd::prelude::*;
use vstd::slice::slice_to_vec;

verus! {

/// The key with which tokens are signed: a shared secret.  It has no
/// `Debug`, so that the secret is not printed by accident.
///
/// The view of a key is its secret.
#[derive(Clone)]
pub struct EncodingKey {
    secret: Vec<u8>,
}

/// The key against which signatures are checked: a shared secret.  It has
/// no `Debug`, so that the secret is not printed by accident.
///
/// The view of a key is its secret.
#[derive(Clone)]
pub struct DecodingKey {
    secret: Vec<u8>,
}

impl View for EncodingKey {
    type V = Seq<u8>;

    closed spec fn view(&self) -> Seq<u8> {
        self.secret@
    }
}

impl View for DecodingKey {
    type V = Seq<u8>;

    closed spec fn view(&self) -> Seq<u8> {
        self.secret@
    }
}

impl EncodingKey {
    /// The signing key that holds `secret`.
    pub fn from_secret(secret: &[u8]) -> (key: EncodingKey)
        ensures
            key@ == secret@,
    {
        EncodingKey { secret: slice_to_vec(secret) }
    }

    /// The secret that the key holds.
    pub fn as_bytes(&self) -> (secret: &[u8])
        ensures
            secret@ == self@,
    {
        self.secret.as_slice()
    }
}

impl DecodingKey {
    /// The verification key that holds `secret`.
    pub fn from_secret(secret: &[u8]) -> (key: DecodingKey)
        ensures
            key@ == secret@,
    {
        DecodingKey { secret: slice_to_vec(secret) }
    }

    /// The secret that the key holds.
    pub fn as_bytes(&self) -> (secret: &[u8])
        ensures
            secret@ == self@,
    {
        self.secret.as_slice()
    }
}

} // verus!
