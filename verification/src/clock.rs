//! The system clock.

use vstd::prelude::*;
use crate::duration::Duration;

verus! {

/// Reads the system clock with `SystemTime::elapsed` on `UNIX_EPOCH`.  Stops
/// the program when the clock is set before the epoch: no token can be
/// issued or judged without the time.
///
/// Not proved.  Trusted: the sub-second part of what the clock gives is
/// below one second.  Nothing is said of the instant itself.
#[verifier::external_body]
pub(crate) fn time_since_epoch() -> (now: Duration)
    ensures
        now.wf(),
{
    let elapsed = std::time::UNIX_EPOCH.elapsed().expect("the system clock is before 1970");
    Duration { secs: elapsed.as_secs(), nanos: elapsed.subsec_nanos() }
}

} // verus!
