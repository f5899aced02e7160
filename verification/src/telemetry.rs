//! Observability recorder: one outcome per request — route template, method,
//! status, identity (or the unauthorized sentinel), and elapsed time — plus a
//! latency histogram with fixed bucket boundaries, aggregated across requests.

use crate::identity::{spec_unauthorized_sentinel, unauthorized_sentinel, UserId};
use vstd::prelude::*;
use vstd::string::StringExecFns;

verus! {

/// Latency histogram bucket upper bounds, in milliseconds: 0.1 s, 0.25 s,
/// 0.5 s and 1 s, plus an implicit unbounded bucket above them.
pub open spec fn spec_bucket_count() -> int {
    5
}

/// What the recorder notes about one finished request. Produced once per
/// request and never mutated afterwards.
#[derive(Debug, Clone)]
pub struct RequestOutcome {
    pub route: String,
    pub method: String,
    pub status: u16,
    pub identity: String,
    pub duration_ms: u64,
}

/// The histogram bucket a latency falls into: the first of the fixed
/// boundaries it does not exceed, or the unbounded last bucket.
pub open spec fn spec_bucket_index(duration_ms: u64) -> int {
    if duration_ms <= 100 {
        0
    } else if duration_ms <= 250 {
        1
    } else if duration_ms <= 500 {
        2
    } else if duration_ms <= 1000 {
        3
    } else {
        4
    }
}

/// Picks the histogram bucket for one request latency.
pub fn bucket_index(duration_ms: u64) -> (idx: usize)
    ensures
        idx == spec_bucket_index(duration_ms),
{
    if duration_ms <= 100 {
        0
    } else if duration_ms <= 250 {
        1
    } else if duration_ms <= 500 {
        2
    } else if duration_ms <= 1000 {
        3
    } else {
        4
    }
}

/// The route label for an outcome: the matched route template, or a fixed
/// wildcard where no template matched, keeping label cardinality bounded.
pub fn route_label(matched_route: Option<String>) -> (label: String)
    ensures
        match matched_route {
            Some(route) => label == route,
            None => label@ == "*"@,
        },
{
    match matched_route {
        Some(route) => route,
        None => String::from_str("*"),
    }
}

/// Builds the single outcome recorded for a request. A request that never
/// had an identity attached is labelled with the fixed unauthorized sentinel.
pub fn record_outcome(
    route: String,
    method: String,
    status: u16,
    identity: Option<UserId>,
    duration_ms: u64,
) -> (outcome: RequestOutcome)
    ensures
        outcome.route == route,
        outcome.method == method,
        outcome.status == status,
        outcome.duration_ms == duration_ms,
        match identity {
            Some(user) => outcome.identity == user.0,
            None => outcome.identity@ == spec_unauthorized_sentinel(),
        },
{
    let label = match identity {
        Some(user) => user.0,
        None => unauthorized_sentinel(),
    };
    RequestOutcome { route, method, status, identity: label, duration_ms }
}

/// Aggregated request-latency histogram. Per-request data is folded in once
/// and not retained; the counters saturate rather than wrap.
pub struct LatencyHistogram {
    buckets: Vec<u64>,
    observations: u64,
}

/// One more observation, saturating at the counter's maximum.
pub open spec fn spec_bumped(count: u64) -> u64 {
    if count < u64::MAX {
        (count + 1) as u64
    } else {
        count
    }
}

impl LatencyHistogram {
    /// The histogram always holds one counter per bucket.
    pub open spec fn wf(&self) -> bool {
        self.spec_buckets().len() == spec_bucket_count()
    }

    pub closed spec fn spec_buckets(&self) -> Seq<u64> {
        self.buckets@
    }

    pub closed spec fn spec_observations(&self) -> u64 {
        self.observations
    }

    /// Creates an empty histogram.
    pub fn new() -> (h: LatencyHistogram)
        ensures
            h.wf(),
            h.spec_observations() == 0,
            forall|i: int| 0 <= i < spec_bucket_count() ==> h.spec_buckets()[i] == 0,
    {
        let mut buckets: Vec<u64> = Vec::new();
        buckets.push(0);
        buckets.push(0);
        buckets.push(0);
        buckets.push(0);
        buckets.push(0);
        LatencyHistogram { buckets, observations: 0 }
    }

    /// Folds one request latency into the aggregate: exactly the bucket the
    /// latency falls into is bumped, every other counter is untouched.
    pub fn observe(&mut self, duration_ms: u64)
        requires
            old(self).wf(),
        ensures
            final(self).wf(),
            final(self).spec_observations() == spec_bumped(old(self).spec_observations()),
            final(self).spec_buckets() == old(self).spec_buckets().update(
                spec_bucket_index(duration_ms),
                spec_bumped(old(self).spec_buckets()[spec_bucket_index(duration_ms)]),
            ),
    {
        let idx = bucket_index(duration_ms);
        let count = self.buckets[idx];
        let bumped = if count < u64::MAX {
            count + 1
        } else {
            count
        };
        self.buckets.set(idx, bumped);
        if self.observations < u64::MAX {
            self.observations = self.observations + 1;
        }
    }

    /// Read-only view of one bucket's counter.
    pub fn bucket_count(&self, idx: usize) -> (count: u64)
        requires
            self.wf(),
            idx < spec_bucket_count(),
        ensures
            count == self.spec_buckets()[idx as int],
    {
        self.buckets[idx]
    }

    /// Read-only view of how many requests were observed.
    pub fn observation_count(&self) -> (count: u64)
        ensures
            count == self.spec_observations(),
    {
        self.observations
    }
}

} // verus!
