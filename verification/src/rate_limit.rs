//! How often an operation may run.

use crate::duration::Duration;
use crate::error::{ErrorView, Outcome, OxideScannerError};
use vstd::prelude::*;

verus! {

/// `governor::Quota`, how many operations may run at once and how fast the
/// allowance comes back.
#[verifier::external_type_specification]
#[verifier::external_body]
pub struct ExQuota(governor::Quota);

/// What `governor::Quota::burst_size` tells of a quota.
pub uninterp spec fn quota_burst(q: governor::Quota) -> nat;

/// What `governor::Quota::replenish_interval` tells of a quota, in nanoseconds.
pub uninterp spec fn quota_interval(q: governor::Quota) -> nat;

/// `governor::Quota::with_period`. There is no quota for a period of zero; any
/// other quota gives one operation back per period, and its burst size is one.
#[verifier::external_body]
fn quota_with_period(secs: u64, nanos: u32) -> (r: Option<governor::Quota>)
    requires
        nanos < 1_000_000_000,
    ensures
        r.is_none() == (secs == 0 && nanos == 0),
        r.is_some() ==> quota_burst(r.unwrap()) == 1,
        r.is_some() ==> quota_interval(r.unwrap()) == secs * 1_000_000_000 + nanos,
{
    governor::Quota::with_period(core::time::Duration::new(secs, nanos))
}

/// `governor::Quota::allow_burst`, which sets the burst size and keeps the
/// interval.
#[verifier::external_body]
fn allow_burst(q: governor::Quota, burst: u32) -> (r: governor::Quota)
    requires
        burst > 0,
    ensures
        quota_burst(r) == burst,
        quota_interval(r) == quota_interval(q),
{
    q.allow_burst(core::num::NonZeroU32::new(burst).unwrap())
}

/// At most `max_operations` per `period`, or as many at once as
/// `burst_capacity` says.
#[derive(Debug, Clone)]
pub struct RateLimitPolicy {
    pub max_operations: u32,
    pub period: Duration,
    pub burst_capacity: Option<u32>,
}

/// A rate limit with its period in nanoseconds.
pub struct RateLimitView {
    pub max_operations: u32,
    pub period: nat,
    pub burst_capacity: Option<u32>,
}

impl DeepView for RateLimitPolicy {
    type V = RateLimitView;

    open spec fn deep_view(&self) -> RateLimitView {
        RateLimitView {
            max_operations: self.max_operations,
            period: self.period.deep_view(),
            burst_capacity: self.burst_capacity,
        }
    }
}

impl RateLimitView {
    /// How many operations the quota allows at once.
    pub open spec fn burst(self) -> u32 {
        match self.burst_capacity {
            Some(b) => b,
            None => self.max_operations,
        }
    }

    /// Why there is no quota of this kind, if so.
    pub open spec fn refusal(self) -> Option<ErrorView> {
        if self.max_operations == 0 {
            Some(ErrorView::Config("Rate limit max_operations must be greater than 0"@))
        } else if self.burst_capacity == Some(0u32) {
            Some(ErrorView::Config("Rate limit burst_capacity must be greater than 0"@))
        } else {
            None
        }
    }
}

impl RateLimitPolicy {
    pub fn new(max_operations: u32, period: Duration) -> (r: Self)
        ensures
            r == (RateLimitPolicy { max_operations, period, burst_capacity: None }),
    {
        RateLimitPolicy { max_operations, period, burst_capacity: None }
    }

    pub fn with_burst(max_operations: u32, period: Duration, burst_capacity: u32) -> (r: Self)
        ensures
            r == (RateLimitPolicy { max_operations, period, burst_capacity: Some(burst_capacity) }),
    {
        RateLimitPolicy { max_operations, period, burst_capacity: Some(burst_capacity) }
    }

    /// The quota that enforces this limit: one operation comes back per period,
    /// and the burst capacity, or else the number of operations, may run at once.
    pub fn to_quota(&self) -> (r: Outcome<governor::Quota>)
        requires
            self.deep_view().refusal() is None ==> self.period.in_nanos() > 0,
        ensures
            match r {
                Ok(q) => {
                    &&& self.deep_view().refusal() is None
                    &&& quota_burst(q) == self.deep_view().burst()
                    &&& quota_interval(q) == self.period.in_nanos()
                },
                Err(e) => self.deep_view().refusal() == Some(e.deep_view()),
            },
    {
        if self.max_operations == 0 {
            return Err(
                OxideScannerError::config("Rate limit max_operations must be greater than 0"),
            );
        }
        let burst: u32 = match self.burst_capacity {
            Some(b) => {
                if b == 0 {
                    return Err(
                        OxideScannerError::config(
                            "Rate limit burst_capacity must be greater than 0",
                        ),
                    );
                }
                b
            },
            None => self.max_operations,
        };
        let quota = quota_with_period(self.period.as_secs(), self.period.subsec_nanos()).unwrap();
        Ok(allow_burst(quota, burst))
    }
}

} // verus!
