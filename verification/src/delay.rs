//! Lengths of time to wait.

use vstd::prelude::*;

verus! {

/// Nanoseconds in a second.
pub const NANOS_PER_SEC: u64 = 1_000_000_000;

/// A length of time: whole seconds and the nanoseconds beyond them.
#[derive(Debug, Clone, Copy, PartialEq, Eq, Structural)]
pub struct Delay {
    pub secs: u64,
    pub nanos: u32,
}

impl Delay {
    /// Whether the nanoseconds stay below a second.
    pub open spec fn wf(self) -> bool {
        self.nanos < NANOS_PER_SEC
    }

    /// The whole length in nanoseconds.
    pub open spec fn total(self) -> nat {
        (self.secs * NANOS_PER_SEC + self.nanos) as nat
    }

    /// A number of whole seconds.
    pub fn from_secs(secs: u64) -> (r: Delay)
        ensures
            r.wf(),
            r.secs == secs,
            r.total() == secs * NANOS_PER_SEC,
    {
        Delay { secs, nanos: 0 }
    }

    /// A number of milliseconds.
    pub fn from_millis(millis: u64) -> (r: Delay)
        ensures
            r.wf(),
            r.total() == millis * 1_000_000,
    {
        Delay { secs: millis / 1000, nanos: (millis % 1000) as u32 * 1_000_000 }
    }
}

/// A well-formed delay is determined by its length.
pub proof fn delay_is_its_length(a: Delay, b: Delay)
    requires
        a.wf(),
        b.wf(),
        a.total() == b.total(),
    ensures
        a == b,
{
}

/// Lengths are counted in nanoseconds, a billion to the second.
pub proof fn delays_count_nanoseconds(delay: Delay)
    ensures
        delay.total() == delay.secs * 1_000_000_000 + delay.nanos,
        delay.wf() <==> delay.nanos < 1_000_000_000,
{
}

} // verus!
