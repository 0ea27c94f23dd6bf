//! Spans of time with nanosecond resolution.

use vstd::prelude::*;

verus! {

/// Number of nanoseconds in one second.
pub const NANOS_PER_SEC: u32 = 1_000_000_000;

/// Whole seconds contained in a span of `nanos` nanoseconds.
pub open spec fn whole_secs(nanos: nat) -> nat {
    nanos / (NANOS_PER_SEC as nat)
}

/// A non-negative span of time: whole seconds and a sub-second part in
/// nanoseconds.  Used both for lengths of time and for instants, counted
/// from the Unix epoch.
///
/// The view of a span is its length in nanoseconds.
#[derive(Clone, Copy, Debug)]
pub struct Duration {
    pub(crate) secs: u64,
    pub(crate) nanos: u32,
}

impl View for Duration {
    type V = nat;

    closed spec fn view(&self) -> nat {
        (self.secs as nat) * (NANOS_PER_SEC as nat) + (self.nanos as nat)
    }
}

impl Duration {
    /// The sub-second part never reaches a full second.
    #[verifier::type_invariant]
    pub closed spec fn wf(self) -> bool {
        self.nanos < NANOS_PER_SEC
    }

    /// The whole seconds of a well-formed span are a number that `u64` holds,
    /// and so is the expiry of a token of no validity issued at such an
    /// instant.
    pub proof fn lemma_whole_secs_fit(self)
        requires
            self.wf(),
        ensures
            whole_secs(self@) <= u64::MAX,
    {
    }

    /// A span of `secs` whole seconds.
    pub fn from_secs(secs: u64) -> (d: Duration)
        ensures
            d@ == secs as nat * NANOS_PER_SEC as nat,
            d.wf(),
    {
        Duration { secs, nanos: 0 }
    }

    /// A span of `secs` seconds and `nanos` nanoseconds.  Nanoseconds beyond
    /// a full second carry over into the seconds, which must then still fit.
    pub fn new(secs: u64, nanos: u32) -> (d: Duration)
        requires
            secs + nanos / NANOS_PER_SEC <= u64::MAX,
        ensures
            d@ == secs as nat * NANOS_PER_SEC as nat + nanos as nat,
            d.wf(),
    {
        let carry: u32 = nanos / NANOS_PER_SEC;
        let rest: u32 = nanos % NANOS_PER_SEC;
        Duration { secs: secs + carry as u64, nanos: rest }
    }

    /// The whole seconds of the span, the sub-second part dropped.
    pub fn as_secs(&self) -> (secs: u64)
        ensures
            secs == whole_secs(self@),
    {
        proof {
            use_type_invariant(self);
        }
        self.secs
    }

    /// The part of the span below one second, in nanoseconds.
    pub fn subsec_nanos(&self) -> (nanos: u32)
        ensures
            nanos == self@ % (NANOS_PER_SEC as nat),
            nanos < NANOS_PER_SEC,
    {
        proof {
            use_type_invariant(self);
        }
        self.nanos
    }

    /// The sum of two spans, or `None` when its whole seconds exceed `u64`.
    pub fn checked_add(self, rhs: Duration) -> (sum: Option<Duration>)
        ensures
            sum is Some <==> whole_secs(self@ + rhs@) <= u64::MAX,
            sum matches Some(d) ==> d@ == self@ + rhs@ && d.wf(),
    {
        proof {
            use_type_invariant(self);
            use_type_invariant(rhs);
        }
        let secs: u64 = match self.secs.checked_add(rhs.secs) {
            Some(s) => s,
            None => {
                return None;
            },
        };
        let nanos: u32 = self.nanos + rhs.nanos;
        if nanos >= NANOS_PER_SEC {
            match secs.checked_add(1) {
                Some(s) => Some(Duration { secs: s, nanos: nanos - NANOS_PER_SEC }),
                None => None,
            }
        } else {
            Some(Duration { secs, nanos })
        }
    }
}

} // verus!
