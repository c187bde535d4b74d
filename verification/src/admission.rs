//! Admission control: a token bucket with a fixed refill rate and burst
//! capacity, consulted before a request reaches the orchestrator.

use vstd::prelude::*;

verus! {

/// A token bucket. `tokens` never exceeds `capacity`; `last_refill` is the
/// timestamp (in whole time units, e.g. seconds) of the most recent refill.
pub struct TokenBucket {
    pub capacity: u64,
    pub refill_per_unit: u64,
    pub tokens: u64,
    pub last_refill: u64,
}

impl TokenBucket {
    /// Well-formedness: a positive burst capacity and refill rate, and never
    /// more tokens than the capacity.
    pub open spec fn wf(self) -> bool {
        &&& self.capacity >= 1
        &&& self.refill_per_unit >= 1
        &&& self.tokens <= self.capacity
    }

    /// The tokens available at time `now`, before any is consumed: the bucket
    /// is refilled at `refill_per_unit` tokens per elapsed time unit, capped
    /// at `capacity`. A clock that moved backwards adds nothing.
    pub open spec fn spec_available(self, now: u64) -> int {
        let elapsed: int = if now >= self.last_refill {
            now - self.last_refill
        } else {
            0
        };
        let refilled: int = self.tokens + self.refill_per_unit * elapsed;
        if refilled >= self.capacity {
            self.capacity as int
        } else {
            refilled
        }
    }

    /// A full bucket, starting at time `now`.
    pub fn new(capacity: u64, refill_per_unit: u64, now: u64) -> (b: TokenBucket)
        requires
            capacity >= 1,
            refill_per_unit >= 1,
        ensures
            b.wf(),
            b.capacity == capacity,
            b.refill_per_unit == refill_per_unit,
            b.tokens == capacity,
            b.last_refill == now,
    {
        TokenBucket { capacity, refill_per_unit, tokens: capacity, last_refill: now }
    }

    /// Refill for the time elapsed since the last refill, then admit the
    /// request iff a token is available, consuming it. A request that finds
    /// the bucket empty is rejected and consumes nothing.
    pub fn try_admit(&mut self, now: u64) -> (admitted: bool)
        requires
            old(self).wf(),
        ensures
            final(self).wf(),
            admitted == (old(self).spec_available(now) > 0),
            final(self).tokens == if old(self).spec_available(now) > 0 {
                old(self).spec_available(now) - 1
            } else {
                0int
            },
            final(self).capacity == old(self).capacity,
            final(self).refill_per_unit == old(self).refill_per_unit,
            final(self).last_refill == if now >= old(self).last_refill {
                now
            } else {
                old(self).last_refill
            },
    {
        let elapsed: u64 = if now >= self.last_refill {
            let e: u64 = now - self.last_refill;
            self.last_refill = now;
            e
        } else {
            0
        };
        let rate: u64 = self.refill_per_unit;
        proof {
            assert((rate as int) * (elapsed as int) <= (u64::MAX as int) * (u64::MAX as int))
                by (nonlinear_arith)
                requires
                    rate <= u64::MAX,
                    elapsed <= u64::MAX,
            ;
        }
        let added: u128 = (rate as u128) * (elapsed as u128);
        let headroom: u128 = (self.capacity - self.tokens) as u128;
        let available: u64 = if added >= headroom {
            self.capacity
        } else {
            self.tokens + (added as u64)
        };
        if available > 0 {
            self.tokens = available - 1;
            true
        } else {
            self.tokens = 0;
            false
        }
    }
}

} // verus!
