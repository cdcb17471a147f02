//! Admission control: a token bucket with a fixed refill rate and burst
//! capacity.
//!
//! One bucket is shared process-wide and is the only state that outlives
//! a request. Each inbound request takes one token if a whole one is
//! available and is otherwise rejected before anything else happens — no
//! fault injection, no upstream fetch. The embedding serializes access to
//! the shared bucket (a lock around it), so each `try_admit` call is a
//! single atomic step of the transition written here.
//!
//! Tokens are tracked in thousandths ("millitokens"), so a refill rate of
//! `r` tokens per second is exactly `r` millitokens per elapsed
//! millisecond.

use vstd::prelude::*;

verus! {

/// A token bucket over an externally supplied millisecond clock.
#[derive(Debug)]
pub struct AdmissionLimiter {
    /// Whole tokens refilled per second; also millitokens per millisecond.
    pub rate_per_sec: u64,
    /// Burst capacity in whole tokens.
    pub burst: u64,
    /// Current balance in millitokens; never above `burst * 1000`.
    pub millitokens: u64,
    /// Clock reading at the last refill, in milliseconds.
    pub last_refill_ms: u64,
}

impl AdmissionLimiter {
    /// Well-formedness: configuration within machine bounds and the
    /// balance within capacity.
    pub open spec fn wf(self) -> bool {
        &&& 1 <= self.rate_per_sec <= 1000
        &&& 1 <= self.burst <= 1000
        &&& self.millitokens <= self.burst * 1000
    }

    /// Capacity in millitokens.
    pub open spec fn capacity_milli(self) -> int {
        self.burst * 1000
    }

    /// The balance after refilling at `now`: the old balance plus one
    /// millitoken per elapsed millisecond per token-per-second of rate,
    /// capped at capacity. A clock that moved backwards refills nothing.
    pub open spec fn refilled_milli(self, now: int) -> int {
        let elapsed = if now >= self.last_refill_ms {
            now - self.last_refill_ms
        } else {
            0
        };
        let grown = self.millitokens + elapsed * self.rate_per_sec;
        if grown >= self.capacity_milli() {
            self.capacity_milli()
        } else {
            grown
        }
    }

    /// Whole tokens available at `now`.
    pub open spec fn available_tokens(self, now: int) -> int {
        self.refilled_milli(now) / 1000
    }

    /// Whether a request arriving at `now` would be admitted: a whole
    /// token must be available.
    pub open spec fn would_admit(self, now: int) -> bool {
        self.refilled_milli(now) >= 1000
    }

    /// A fresh limiter: full burst available from the start.
    pub fn new(rate_per_sec: u64, burst: u64, start_ms: u64) -> (l: AdmissionLimiter)
        requires
            1 <= rate_per_sec <= 1000,
            1 <= burst <= 1000,
        ensures
            l.wf(),
            l.rate_per_sec == rate_per_sec,
            l.burst == burst,
            l.millitokens == l.capacity_milli(),
            l.last_refill_ms == start_ms,
    {
        AdmissionLimiter {
            rate_per_sec,
            burst,
            millitokens: burst * 1000,
            last_refill_ms: start_ms,
        }
    }

    /// Admit or reject one request arriving at `now_ms`.
    ///
    /// The bucket refills for the elapsed time, then the request takes
    /// one whole token if the refilled balance holds one; otherwise the
    /// balance is kept and the request is rejected. Tokens are neither
    /// lost nor granted twice: the new balance is exactly the refilled
    /// balance minus the single token taken, if one was.
    pub fn try_admit(&mut self, now_ms: u64) -> (r: bool)
        requires
            old(self).wf(),
        ensures
            final (self).wf(),
            final (self).rate_per_sec == old(self).rate_per_sec,
            final (self).burst == old(self).burst,
            final (self).last_refill_ms == (if now_ms >= old(self).last_refill_ms {
                now_ms as int
            } else {
                old(self).last_refill_ms as int
            }),
            r == old(self).would_admit(now_ms as int),
            r ==> final (self).millitokens == old(self).refilled_milli(now_ms as int) - 1000,
            !r ==> final (self).millitokens == old(self).refilled_milli(now_ms as int),
    {
        let last = self.last_refill_ms;
        let now = if now_ms >= last {
            now_ms
        } else {
            last
        };
        let elapsed = now - last;
        let cap = self.burst * 1000;
        let filled: u64 = if elapsed >= 1000000 {
            proof {
                assert(elapsed * self.rate_per_sec >= elapsed * 1) by (nonlinear_arith)
                    requires
                        self.rate_per_sec >= 1,
                        elapsed >= 0,
                ;
            }
            cap
        } else {
            proof {
                assert(elapsed * self.rate_per_sec < 1000000000) by (nonlinear_arith)
                    requires
                        elapsed < 1000000,
                        self.rate_per_sec <= 1000,
                ;
            }
            let gained = elapsed * self.rate_per_sec;
            let grown = self.millitokens + gained;
            if grown >= cap {
                cap
            } else {
                grown
            }
        };
        self.last_refill_ms = now;
        if filled >= 1000 {
            self.millitokens = filled - 1000;
            true
        } else {
            self.millitokens = filled;
            false
        }
    }
}

/// A bucket without a whole token rejects: whenever fewer than one whole
/// token is available at `now`, a request arriving at `now` is not
/// admitted — and a rejected request is never forwarded anywhere (see the
/// request plan, which carries no fetch in that case).
pub proof fn lemma_exhausted_bucket_rejects(l: AdmissionLimiter, now: int)
    requires
        l.wf(),
        l.available_tokens(now) == 0,
    ensures
        !l.would_admit(now),
{
}

} // verus!
