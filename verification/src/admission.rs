//! Admission controller: a fixed-size pool of concurrency permits with
//! non-blocking acquisition. When no permit is free the caller is told so
//! immediately (load shedding); requests are never queued for capacity.

use vstd::prelude::*;

verus! {

/// A counting pool of concurrency permits with a fixed capacity.
///
/// `available` counts the permits currently free; `capacity - available`
/// permits are outstanding. The capacity is set at construction and never
/// changes afterwards.
pub struct PermitPool {
    capacity: usize,
    available: usize,
}

impl PermitPool {
    /// The pool never hands out more permits than its capacity.
    pub open spec fn wf(&self) -> bool {
        self.spec_available() <= self.spec_capacity()
    }

    pub closed spec fn spec_capacity(&self) -> usize {
        self.capacity
    }

    pub closed spec fn spec_available(&self) -> usize {
        self.available
    }

    /// How many permits are currently held.
    pub open spec fn spec_outstanding(&self) -> int {
        self.spec_capacity() - self.spec_available()
    }

    /// Creates a pool with `capacity` permits, all free.
    pub fn new(capacity: usize) -> (pool: PermitPool)
        ensures
            pool.wf(),
            pool.spec_capacity() == capacity,
            pool.spec_available() == capacity,
    {
        PermitPool { capacity, available: capacity }
    }

    /// Non-blocking acquisition of one permit: succeeds exactly when a permit
    /// is free, and a failed attempt consumes nothing.
    pub fn try_acquire(&mut self) -> (acquired: bool)
        requires
            old(self).wf(),
        ensures
            final(self).wf(),
            final(self).spec_capacity() == old(self).spec_capacity(),
            acquired == (old(self).spec_available() > 0),
            acquired ==> final(self).spec_available() == old(self).spec_available() - 1,
            !acquired ==> final(self).spec_available() == old(self).spec_available(),
    {
        if self.available > 0 {
            self.available = self.available - 1;
            true
        } else {
            false
        }
    }

    /// Returns one held permit to the pool. Requires that a permit is
    /// actually outstanding, so a permit can never be double-released.
    pub fn release(&mut self)
        requires
            old(self).wf(),
            old(self).spec_available() < old(self).spec_capacity(),
        ensures
            final(self).wf(),
            final(self).spec_capacity() == old(self).spec_capacity(),
            final(self).spec_available() == old(self).spec_available() + 1,
    {
        self.available = self.available + 1;
    }

    /// Read-only view of the permits currently free, for operational gauges.
    pub fn available_permits(&self) -> (n: usize)
        ensures
            n == self.spec_available(),
    {
        self.available
    }

    /// Read-only view of the configured capacity.
    pub fn capacity(&self) -> (n: usize)
        ensures
            n == self.spec_capacity(),
    {
        self.capacity
    }

    /// Admits as many of `requests` concurrent arrivals as permits are free:
    /// exactly `min(requests, available)` acquire a permit, and every further
    /// arrival is turned away at once rather than queued.
    pub fn try_admit_batch(&mut self, requests: usize) -> (admitted: usize)
        requires
            old(self).wf(),
        ensures
            final(self).wf(),
            final(self).spec_capacity() == old(self).spec_capacity(),
            admitted == if requests <= old(self).spec_available() {
                requests as int
            } else {
                old(self).spec_available() as int
            },
            final(self).spec_available() == old(self).spec_available() - admitted,
            admitted <= old(self).spec_capacity(),
    {
        let mut admitted: usize = 0;
        let mut i: usize = 0;
        while i < requests
            invariant
                self.wf(),
                self.spec_capacity() == old(self).spec_capacity(),
                0 <= i <= requests,
                admitted == if i <= old(self).spec_available() {
                    i as int
                } else {
                    old(self).spec_available() as int
                },
                self.spec_available() == old(self).spec_available() - admitted,
            decreases requests - i,
        {
            if self.try_acquire() {
                admitted = admitted + 1;
            }
            i = i + 1;
        }
        admitted
    }
}

/// However many requests arrive concurrently, the number holding a permit —
/// and so the number admitted to the handler simultaneously — never exceeds
/// the pool's capacity: every pool operation preserves `wf`, and under `wf`
/// the outstanding permits are bounded by the capacity.
pub proof fn lemma_outstanding_never_exceeds_capacity(pool: PermitPool)
    requires
        pool.wf(),
    ensures
        0 <= pool.spec_outstanding() <= pool.spec_capacity(),
{
}

} // verus!
