//! The claims that a token carries, and the envelope in which the signer
//! hands them back.

use vstd::prelude::*;
use vstd::arithmetic::div_mod::lemma_div_is_ordered;
use crate::duration::{whole_secs, Duration, NANOS_PER_SEC};

verus! {

/// The claims of a token: its validity window, in whole seconds since the
/// Unix epoch, and the payload.
#[derive(Clone, Debug)]
pub struct Claims {
    /// The instant at which the token expires.
    pub exp: u64,
    /// The instant from which the token is valid.
    pub nbf: u64,
    /// The payload, carried as it is.
    pub inner: String,
}

/// The mathematical content of [`Claims`].
pub struct ClaimsView {
    pub exp: nat,
    pub nbf: nat,
    pub inner: Seq<char>,
}

impl View for Claims {
    type V = ClaimsView;

    open spec fn view(&self) -> ClaimsView {
        ClaimsView { exp: self.exp as nat, nbf: self.nbf as nat, inner: self.inner@ }
    }
}

impl ClaimsView {
    /// A token does not expire before it becomes valid.
    pub open spec fn wf(self) -> bool {
        self.nbf <= self.exp
    }

    /// The envelope in which these claims come back from the signer.
    pub open spec fn envelope(self) -> EnvelopeView {
        EnvelopeView { exp: Some(self.exp), nbf: Some(self.nbf), inner: Some(self.inner) }
    }
}

/// What the signer found in a token whose signature it accepted.  A field is
/// `None` when the token lacks it or holds it in another type.
#[derive(Clone, Debug)]
pub struct Envelope {
    /// The instant at which the token expires.
    pub exp: Option<u64>,
    /// The instant from which the token is valid.
    pub nbf: Option<u64>,
    /// The payload.
    pub inner: Option<String>,
}

/// The mathematical content of an [`Envelope`].
pub struct EnvelopeView {
    pub exp: Option<nat>,
    pub nbf: Option<nat>,
    pub inner: Option<Seq<char>>,
}

impl View for Envelope {
    type V = EnvelopeView;

    open spec fn view(&self) -> EnvelopeView {
        EnvelopeView {
            exp: match self.exp {
                Some(exp) => Some(exp as nat),
                None => None,
            },
            nbf: match self.nbf {
                Some(nbf) => Some(nbf as nat),
                None => None,
            },
            inner: match self.inner {
                Some(inner) => Some(inner@),
                None => None,
            },
        }
    }
}

/// The expiry of a token of validity `length` issued at `now` is an instant
/// that a `u64` can hold.
pub open spec fn expiry_fits(length: Duration, now: Duration) -> bool {
    whole_secs(now@ + length@) <= u64::MAX
}

/// The claims of a token that is issued at `now` for the payload `inner`
/// and is to stay valid for `length`: valid from the second of issue, expiring
/// at the second in which `length` has passed.
pub open spec fn issued(inner: Seq<char>, length: Duration, now: Duration) -> ClaimsView {
    ClaimsView { exp: whole_secs(now@ + length@), nbf: whole_secs(now@), inner }
}

/// Issued claims are well-formed: the window is not empty.
pub proof fn lemma_issued_wf(inner: Seq<char>, length: Duration, now: Duration)
    ensures
        issued(inner, length, now).wf(),
{
    lemma_div_is_ordered(now@ as int, (now@ + length@) as int, NANOS_PER_SEC as int);
}

impl Claims {
    /// The claims of a token issued at `current_time_since_epoch` for `inner`,
    /// valid for `length`.
    pub fn new(inner: String, length: Duration, current_time_since_epoch: Duration) -> (claims:
        Claims)
        requires
            expiry_fits(length, current_time_since_epoch),
        ensures
            claims@ == issued(inner@, length, current_time_since_epoch),
            claims@.wf(),
    {
        proof {
            lemma_issued_wf(inner@, length, current_time_since_epoch);
        }
        let end: Duration = current_time_since_epoch.checked_add(length).unwrap();
        Claims { exp: end.as_secs(), nbf: current_time_since_epoch.as_secs(), inner }
    }
}

} // verus!
