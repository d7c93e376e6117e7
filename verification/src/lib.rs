//! A controllable time source for testing code that depends on wall-clock
//! time. A thread can be switched from the real system clock to a faked
//! timestamp read from a file, either by an explicit call or by a one-time
//! auto-detection step driven by an environment variable or the thread's
//! name. The file holds the milliseconds since the UNIX epoch as decimal
//! text; writers publish it atomically so readers never see partial content.

use vstd::prelude::*;

pub mod duration;
pub mod faketime;
pub mod parse;
pub mod protocol;
pub mod system;

pub use crate::duration::Duration;
pub use crate::faketime::{disable, enable, read_or_system, time_source, ThreadTimeState, TimeSource};
pub use crate::protocol::{millis_tempfile, write_millis};

verus! {

/// Gets the milliseconds since the UNIX epoch that a resolved duration
/// denotes: the whole seconds scaled to milliseconds plus the sub-second
/// milliseconds. The duration must be small enough for that number to fit
/// in a `u64`; the host clock and any published timestamp stay far below
/// that bound.
pub fn unix_time_as_millis(duration: &Duration) -> (r: u64)
    requires
        duration.spec_secs() * 1000 + duration.spec_nanos() / 1_000_000 <= u64::MAX,
    ensures
        r == duration.spec_secs() * 1000 + duration.spec_nanos() / 1_000_000,
{
    duration.as_secs() * 1000 + (duration.subsec_millis() as u64)
}

} // verus!
