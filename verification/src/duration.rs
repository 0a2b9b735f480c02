//! Spans of time.
use vstd::prelude::*;

verus! {

/// A span of time, in whole seconds and nanoseconds.
#[derive(Clone, Copy, Debug, PartialEq, Eq, Structural)]
pub struct Duration {
    secs: u64,
    nanos: u32,
}

impl View for Duration {
    type V = nat;

    /// The length of the span in nanoseconds.
    closed spec fn view(&self) -> nat {
        self.secs as nat * 1_000_000_000 + self.nanos as nat
    }
}

/// The span of `secs` seconds and `nanos` nanoseconds.
pub closed spec fn span(secs: u64, nanos: u32) -> Duration {
    Duration {
        secs: (secs + nanos / 1_000_000_000) as u64,
        nanos: (nanos % 1_000_000_000) as u32,
    }
}

/// The span of `secs` seconds and no nanoseconds is that of `secs` seconds.
pub broadcast proof fn lemma_span_of_seconds(secs: u64)
    ensures
        #[trigger] span(secs, 0) == seconds(secs),
{
}

/// The span of `secs` seconds.
pub closed spec fn seconds(secs: u64) -> Duration {
    Duration { secs, nanos: 0 }
}

/// How long a span of so many seconds is.
pub broadcast proof fn lemma_seconds(secs: u64)
    ensures
        (#[trigger] seconds(secs))@ == secs as nat * 1_000_000_000,
{
}

impl Duration {
    #[verifier::type_invariant]
    spec fn whole_seconds_carried(self) -> bool {
        self.nanos < 1_000_000_000
    }

    /// The span of `secs` seconds and `nanos` nanoseconds.
    pub fn new(secs: u64, nanos: u32) -> (d: Duration)
        requires
            secs + nanos / 1_000_000_000 <= u64::MAX,
        ensures
            d == span(secs, nanos),
            d@ == secs as nat * 1_000_000_000 + nanos as nat,
    {
        Duration {
            secs: secs + (nanos / 1_000_000_000) as u64,
            nanos: nanos % 1_000_000_000,
        }
    }

    /// The span of `secs` seconds.
    pub fn from_secs(secs: u64) -> (d: Duration)
        ensures
            d == seconds(secs),
            d@ == secs as nat * 1_000_000_000,
    {
        Duration { secs, nanos: 0 }
    }

    /// The whole seconds of the span.
    pub fn as_secs(&self) -> (secs: u64)
        ensures
            secs == self@ / 1_000_000_000,
    {
        proof {
            use_type_invariant(self);
        }
        self.secs
    }

    /// The nanoseconds of the span beyond its whole seconds.
    pub fn subsec_nanos(&self) -> (nanos: u32)
        ensures
            nanos == self@ % 1_000_000_000,
    {
        proof {
            use_type_invariant(self);
        }
        self.nanos
    }

    /// The whole milliseconds of the span.
    pub fn as_millis(&self) -> (millis: u128)
        ensures
            millis == self@ / 1_000_000,
    {
        proof {
            use_type_invariant(self);
        }
        self.secs as u128 * 1000 + (self.nanos / 1_000_000) as u128
    }
}

} // verus!
