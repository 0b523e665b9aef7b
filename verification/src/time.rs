use vstd::prelude::*;

verus! {

/// The number of nanoseconds in a second.
pub const NANOS_PER_SEC: u32 = 1_000_000_000;

/// A span of time: whole seconds, and the nanoseconds of a further part of a
/// second.
#[derive(Clone, Copy, Debug, PartialEq, Eq, Structural)]
pub struct Duration {
    /// The whole seconds.
    pub secs: u64,
    /// The nanoseconds beyond the whole seconds.
    pub nanos: u32,
}

impl Duration {
    /// A duration is well formed where its nanoseconds stay below a second.
    pub open spec fn wf(self) -> bool {
        self.nanos < NANOS_PER_SEC
    }

    /// The duration of `n` nanoseconds.
    pub open spec fn spec_from_nanos(n: nat) -> Duration {
        Duration { secs: (n / (NANOS_PER_SEC as nat)) as u64, nanos: (n % (NANOS_PER_SEC as nat)) as u32 }
    }

    /// The duration of `n` nanoseconds, where its whole seconds fit in 64
    /// bits.
    pub fn from_nanos(n: u128) -> (d: Duration)
        requires
            n / (NANOS_PER_SEC as u128) <= u64::MAX,
        ensures
            d == Duration::spec_from_nanos(n as nat),
            d.wf(),
            d.spec_as_nanos() == n,
    {
        Duration { secs: (n / (NANOS_PER_SEC as u128)) as u64, nanos: (n % (NANOS_PER_SEC as u128)) as u32 }
    }

    /// The duration of `secs` whole seconds.
    pub fn from_secs(secs: u64) -> (d: Duration)
        ensures
            d == (Duration { secs, nanos: 0 }),
            d.wf(),
    {
        Duration { secs, nanos: 0 }
    }

    /// What [`Self::as_secs`] returns, for use in specifications.
    pub open spec fn spec_as_secs(&self) -> u64 {
        self.secs
    }

    /// The whole seconds of the duration.
    #[verifier::when_used_as_spec(spec_as_secs)]
    pub fn as_secs(&self) -> (s: u64)
        ensures
            s == self.secs,
    {
        self.secs
    }

    /// What [`Self::subsec_nanos`] returns, for use in specifications.
    pub open spec fn spec_subsec_nanos(&self) -> u32 {
        self.nanos
    }

    /// The nanoseconds of the duration beyond its whole seconds.
    #[verifier::when_used_as_spec(spec_subsec_nanos)]
    pub fn subsec_nanos(&self) -> (n: u32)
        ensures
            n == self.nanos,
    {
        self.nanos
    }

    /// The duration in nanoseconds.
    pub open spec fn spec_as_nanos(&self) -> nat {
        (self.secs * (NANOS_PER_SEC as nat) + self.nanos) as nat
    }

    /// The duration in nanoseconds.
    pub fn as_nanos(&self) -> (n: u128)
        ensures
            n == self.spec_as_nanos(),
    {
        assert(self.secs * NANOS_PER_SEC == self.secs * 1_000_000_000);
        (self.secs as u128) * (NANOS_PER_SEC as u128) + (self.nanos as u128)
    }
}

impl Default for Duration {
    /// The duration of no time at all.
    fn default() -> (d: Duration)
        ensures
            d == (Duration { secs: 0, nanos: 0 }),
    {
        Duration { secs: 0, nanos: 0 }
    }
}

} // verus!
