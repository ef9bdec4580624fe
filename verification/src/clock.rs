//! Where the engine reads the current time.

use chrono::Utc;
use vstd::prelude::*;

use crate::time::Instant;

verus! {

/// A source of the current time, handed to whatever needs one when it is
/// built.
#[derive(Clone, Copy, Debug, PartialEq, Eq, Structural)]
pub enum Clock {
    /// The clock of the machine.
    System,
    /// A clock that stands still at one instant.
    Fixed(Instant),
}

impl Clock {
    /// Whether `now` is a reading that this clock may give.
    pub open spec fn admits(self, now: Instant) -> bool {
        &&& now.wf()
        &&& self matches Clock::Fixed(at) ==> now == at
    }

    /// The current instant.
    pub fn now(&self) -> (now: Instant)
        ensures
            self.admits(now),
    {
        match self {
            Clock::System => {
                let (secs, nanos) = system_time();
                Instant::clamped(secs, nanos)
            },
            Clock::Fixed(at) => {
                proof {
                    use_type_invariant(at);
                }
                *at
            },
        }
    }
}

/// Reads the machine's clock through `chrono::Utc::now`, as whole seconds
/// since the Unix epoch and the nanoseconds past that second (`timestamp`
/// and `timestamp_subsec_nanos` of what it returns).
///
/// Nothing is claimed of the reading. `Utc::now` panics where the machine's
/// clock stands before the Unix epoch.
#[verifier::external_body]
fn system_time() -> (reading: (i64, u32)) {
    let now = Utc::now();
    (now.timestamp(), now.timestamp_subsec_nanos())
}

} // verus!
