use vstd::prelude::*;

verus! {

/// A span of time: whole seconds and nanoseconds on top of them.
#[derive(Debug, Clone, Copy, PartialEq, Eq, Structural)]
pub struct Duration {
    pub secs: u64,
    pub nanos: u32,
}

/// Nanoseconds in a second.
pub const NANOS_PER_SEC: u32 = 1_000_000_000;

impl Duration {
    /// The length of the span in nanoseconds.
    pub open spec fn total_nanos(self) -> int {
        self.secs * NANOS_PER_SEC + self.nanos
    }

    pub fn from_secs(secs: u64) -> (duration: Self)
        ensures
            duration == (Duration { secs, nanos: 0 }),
            duration.total_nanos() == secs * NANOS_PER_SEC,
    {
        Duration { secs, nanos: 0 }
    }

    /// Whether the span is shorter than a second.
    pub fn is_below_second(&self) -> (below: bool)
        ensures
            below == (self.total_nanos() < NANOS_PER_SEC),
    {
        self.secs == 0 && self.nanos < NANOS_PER_SEC
    }
}

} // verus!
