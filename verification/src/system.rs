//! The real clock provider: the host's wall-clock time since the UNIX
//! epoch. This is the fallback the resolver uses whenever faketime is off
//! or a timestamp file cannot be read.

use vstd::prelude::*;

use crate::duration::Duration;

verus! {

/// Gets elapsed time since the UNIX epoch from the host clock.
///
/// Relies on `std::time::SystemTime::now` and `duration_since`: the
/// elapsed time since `UNIX_EPOCH`, whose sub-second nanoseconds are below
/// one second. Panics when the host reports a time before the epoch; that
/// is a broken environment, not a recoverable condition.
#[verifier::external_body]
pub fn unix_time() -> (r: Duration)
    ensures
        r.wf(),
{
    let d = std::time::SystemTime::now()
        .duration_since(std::time::SystemTime::UNIX_EPOCH)
        .expect("SystemTime before UNIX EPOCH!");
    Duration { secs: d.as_secs(), nanos: d.subsec_nanos() }
}

} // verus!
