//! Spans of time.

use vstd::prelude::*;

verus! {

/// A span of time, to the nanosecond.
#[derive(Debug, Clone, Copy, PartialEq, Eq, Structural)]
pub struct Duration {
    secs: u64,
    nanos: u32,
}

impl DeepView for Duration {
    type V = nat;

    /// The nanoseconds of the span.
    open spec fn deep_view(&self) -> nat {
        self.in_nanos()
    }
}

/// The milliseconds of a span, as far as 64 bits hold them.
pub open spec fn wrapped_millis(nanos: nat) -> u64 {
    ((nanos / 1_000_000) % 0x1_0000_0000_0000_0000) as u64
}

impl Duration {
    #[verifier::type_invariant]
    spec fn inv(self) -> bool {
        self.nanos < 1_000_000_000
    }

    /// The nanoseconds of the span.
    pub closed spec fn in_nanos(self) -> nat {
        (self.secs * 1_000_000_000 + self.nanos) as nat
    }

    pub fn from_secs(secs: u64) -> (r: Self)
        ensures
            r.in_nanos() == secs * 1_000_000_000,
    {
        Duration { secs, nanos: 0 }
    }

    pub fn from_millis(millis: u64) -> (r: Self)
        ensures
            r.in_nanos() == millis * 1_000_000,
    {
        Duration { secs: millis / 1000, nanos: (millis % 1000) as u32 * 1_000_000 }
    }

    /// The whole seconds of the span.
    pub fn as_secs(&self) -> (r: u64)
        ensures
            r as nat == self.in_nanos() / 1_000_000_000,
    {
        proof {
            use_type_invariant(self);
        }
        self.secs
    }

    /// The nanoseconds beyond the whole seconds.
    pub fn subsec_nanos(&self) -> (r: u32)
        ensures
            r as nat == self.in_nanos() % 1_000_000_000,
    {
        proof {
            use_type_invariant(self);
        }
        self.nanos
    }

    /// The whole milliseconds of the span.
    pub fn as_millis(&self) -> (r: u128)
        ensures
            r as nat == self.in_nanos() / 1_000_000,
    {
        proof {
            use_type_invariant(self);
        }
        self.secs as u128 * 1000 + (self.nanos / 1_000_000) as u128
    }

    /// The whole milliseconds of the span, as far as 64 bits hold them.
    pub fn as_millis_u64(&self) -> (r: u64)
        ensures
            r == wrapped_millis(self.in_nanos()),
    {
        (self.as_millis() % 0x1_0000_0000_0000_0000u128) as u64
    }
}

} // verus!
