//! A token bucket with lazy refill. Times are milliseconds read from the
//! limiter's own monotonic clock; the `_at` methods take the reading as an
//! argument and hold the whole policy.
use vstd::prelude::*;
use crate::time::{instant_now, millis_since};

verus! {

/// What a blocking acquire should do next.
#[derive(Debug, Clone, Copy, PartialEq, Eq, Structural)]
pub enum TokenWait {
    /// A token was taken.
    Acquired,
    /// No token: sleep this many milliseconds, then ask again.
    Wait(u64),
}

/// Capacity `max_tokens`, `tokens_per_refill` added every `refill_interval_ms`;
/// starts full. Waiters are not served in arrival order.
pub struct RateLimiter {
    pub tokens: usize,
    pub max_tokens: usize,
    pub refill_interval_ms: u64,
    pub tokens_per_refill: usize,
    /// Clock reading of the last refill.
    pub last_refill_ms: u64,
    /// Where the limiter's clock starts.
    pub origin: std::time::Instant,
}

/// The bucket's state, without the clock.
pub struct BucketView {
    pub tokens: nat,
    pub max_tokens: nat,
    pub interval: nat,
    pub per_refill: nat,
    pub last_refill: nat,
}

impl View for RateLimiter {
    type V = BucketView;

    open spec fn view(&self) -> BucketView {
        BucketView {
            tokens: self.tokens as nat,
            max_tokens: self.max_tokens as nat,
            interval: self.refill_interval_ms as nat,
            per_refill: self.tokens_per_refill as nat,
            last_refill: self.last_refill_ms as nat,
        }
    }
}

impl BucketView {
    pub open spec fn wf(self) -> bool {
        self.tokens <= self.max_tokens && self.interval > 0
    }

    /// The bucket after lazily adding what the whole intervals elapsed since
    /// the last refill bring (capped), the refill time advanced by them.
    pub open spec fn refilled(self, now: nat) -> BucketView {
        let elapsed: nat = if now >= self.last_refill { (now - self.last_refill) as nat } else { 0 };
        if elapsed >= self.interval {
            let refills: nat = (elapsed / self.interval) as nat;
            let sum: nat = self.tokens + refills * self.per_refill;
            BucketView {
                tokens: if sum <= self.max_tokens { sum } else { self.max_tokens },
                last_refill: (self.last_refill + refills * self.interval) as nat,
                ..self
            }
        } else {
            self
        }
    }

    /// Refill, then take a token if one is there.
    pub open spec fn try_take(self, now: nat) -> (BucketView, bool) {
        let b = self.refilled(now);
        if b.tokens > 0 {
            (BucketView { tokens: (b.tokens - 1) as nat, ..b }, true)
        } else {
            (b, false)
        }
    }

    /// Refill, then take a token, or say how long until the next refill.
    pub open spec fn poll(self, now: nat) -> (BucketView, TokenWait) {
        let b = self.refilled(now);
        if b.tokens > 0 {
            (BucketView { tokens: (b.tokens - 1) as nat, ..b }, TokenWait::Acquired)
        } else {
            let elapsed: nat = if now >= b.last_refill { (now - b.last_refill) as nat } else { 0 };
            (b, TokenWait::Wait((b.interval - elapsed) as u64))
        }
    }
}

impl RateLimiter {
    /// A full bucket. The interval must be positive.
    pub fn new(max_tokens: usize, refill_interval_ms: u64, tokens_per_refill: usize) -> (r: Self)
        requires
            refill_interval_ms > 0,
        ensures
            r@.wf(),
            r.tokens == max_tokens,
            r.max_tokens == max_tokens,
            r.refill_interval_ms == refill_interval_ms,
            r.tokens_per_refill == tokens_per_refill,
            r.last_refill_ms == 0,
    {
        RateLimiter {
            tokens: max_tokens,
            max_tokens,
            refill_interval_ms,
            tokens_per_refill,
            last_refill_ms: 0,
            origin: instant_now(),
        }
    }

    /// The policy for the tracker's cloud service: 100 requests, all refilled
    /// every minute.
    pub fn jira_cloud() -> (r: Self)
        ensures
            r@.wf(),
            r.tokens == 100,
            r.max_tokens == 100,
            r.refill_interval_ms == 60_000,
            r.tokens_per_refill == 100,
            r.last_refill_ms == 0,
    {
        Self::new(100, 60_000, 100)
    }

    /// Milliseconds on the limiter's clock.
    pub fn now_ms(&self) -> u64 {
        millis_since(&self.origin)
    }

    fn refill_at(&mut self, now: u64)
        requires
            old(self)@.wf(),
        ensures
            final(self)@ == old(self)@.refilled(now as nat),
            final(self).origin == old(self).origin,
            final(self).last_refill_ms <= now || final(self).last_refill_ms == old(self).last_refill_ms,
    {
        let elapsed = if now >= self.last_refill_ms { now - self.last_refill_ms } else { 0 };
        if elapsed >= self.refill_interval_ms {
            let refills = elapsed / self.refill_interval_ms;
            let interval = self.refill_interval_ms;
            assert(refills * interval <= elapsed) by (nonlinear_arith)
                requires
                    refills == elapsed / interval,
                    interval > 0,
            ;
            let r128 = refills as u128;
            let p128 = self.tokens_per_refill as u128;
            assert(r128 * p128 <= 0xffff_ffff_ffff_ffffu128 * 0xffff_ffff_ffff_ffffu128) by (nonlinear_arith)
                requires
                    r128 <= 0xffff_ffff_ffff_ffffu128,
                    p128 <= 0xffff_ffff_ffff_ffffu128,
            ;
            let added = r128 * p128;
            let sum = self.tokens as u128 + added;
            self.tokens = if sum <= self.max_tokens as u128 {
                sum as usize
            } else {
                self.max_tokens
            };
            self.last_refill_ms = self.last_refill_ms + refills * interval;
        }
    }

    /// Takes a token if one is available at clock reading `now`; never waits.
    pub fn try_acquire_at(&mut self, now: u64) -> (r: bool)
        requires
            old(self)@.wf(),
        ensures
            final(self)@.wf(),
            (final(self)@, r) == old(self)@.try_take(now as nat),
    {
        self.refill_at(now);
        if self.tokens > 0 {
            self.tokens = self.tokens - 1;
            true
        } else {
            false
        }
    }

    /// One round of a blocking acquire at clock reading `now`: take a token,
    /// or say how long to sleep before asking again.
    pub fn poll_at(&mut self, now: u64) -> (r: TokenWait)
        requires
            old(self)@.wf(),
        ensures
            final(self)@.wf(),
            (final(self)@, r) == old(self)@.poll(now as nat),
    {
        self.refill_at(now);
        if self.tokens > 0 {
            self.tokens = self.tokens - 1;
            TokenWait::Acquired
        } else {
            proof {
                let b = old(self)@;
                let elapsed: nat = if now >= b.last_refill { (now - b.last_refill) as nat } else { 0 };
                if elapsed >= b.interval {
                    let refills = elapsed / b.interval;
                    assert(elapsed < refills * b.interval + b.interval) by (nonlinear_arith)
                        requires
                            refills == elapsed / b.interval,
                            b.interval > 0,
                    ;
                }
            }
            let elapsed = if now >= self.last_refill_ms { now - self.last_refill_ms } else { 0 };
            TokenWait::Wait(self.refill_interval_ms - elapsed)
        }
    }

    /// Takes a token if one is available now; never waits.
    pub fn try_acquire_token(&mut self) -> (r: bool)
        requires
            old(self)@.wf(),
        ensures
            final(self)@.wf(),
            exists|now: nat| (final(self)@, r) == old(self)@.try_take(now),
    {
        let now = self.now_ms();
        self.try_acquire_at(now)
    }

    /// One round of a blocking acquire now.
    pub fn poll_token(&mut self) -> (r: TokenWait)
        requires
            old(self)@.wf(),
        ensures
            final(self)@.wf(),
            exists|now: nat| (final(self)@, r) == old(self)@.poll(now),
    {
        let now = self.now_ms();
        self.poll_at(now)
    }
}

/// Once the bucket is empty, taking a token fails until a whole refill
/// interval has passed since the last refill, and succeeds from then on.
pub proof fn lemma_empty_until_refill(b: BucketView, now: nat)
    requires
        b.wf(),
        b.tokens == 0,
        b.max_tokens > 0,
        b.per_refill > 0,
    ensures
        now < b.last_refill + b.interval ==> !b.try_take(now).1,
        now >= b.last_refill + b.interval ==> b.try_take(now).1,
{
    if now >= b.last_refill + b.interval {
        let elapsed = (now - b.last_refill) as nat;
        let refills = elapsed / b.interval;
        assert(refills >= 1) by (nonlinear_arith)
            requires
                elapsed >= b.interval,
                b.interval > 0,
                refills == elapsed / b.interval,
        ;
        assert(refills * b.per_refill >= 1) by (nonlinear_arith)
            requires
                refills >= 1,
                b.per_refill >= 1,
        ;
    }
}

/// When the bucket is empty, a blocking acquire sleeps exactly until the next
/// refill instant, which is never more than one interval away, and the token
/// is there when it wakes.
pub proof fn lemma_wait_until_next_refill(b: BucketView, now: nat)
    requires
        b.wf(),
        b.tokens == 0,
        b.max_tokens > 0,
        b.per_refill > 0,
        b.last_refill <= now < b.last_refill + b.interval,
    ensures
        b.poll(now).1 == TokenWait::Wait((b.last_refill + b.interval - now) as u64),
        0 < b.last_refill + b.interval - now <= b.interval,
        b.poll(now).0.poll(b.last_refill + b.interval).1 == TokenWait::Acquired,
{
    let later = b.poll(now).0;
    assert(later == b);
    lemma_empty_until_refill(b, b.last_refill + b.interval);
}

} // verus!
