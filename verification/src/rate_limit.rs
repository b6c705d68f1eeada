//! Configuration of the proactive client-side rate limiter.
//!
//! UniFi Protect advertises `10-in-1sec`; the limiter is a GCRA bucket
//! (from `governor`) that holds `rate` cells and refills one cell every
//! `per / rate`, so a tight loop cannot overrun the server's budget.

use vstd::prelude::*;

use crate::time::Duration;

verus! {

#[verifier::external_type_specification]
#[verifier::external_body]
pub struct ExQuota(governor::Quota);

/// A `u32` that is never zero.
#[derive(Clone, Copy, Debug, PartialEq, Eq, Hash)]
pub struct NonZeroU32 {
    value: u32,
}

impl NonZeroU32 {
    #[verifier::type_invariant]
    closed spec fn nonzero(self) -> bool {
        self.value > 0
    }

    pub closed spec fn spec_get(self) -> u32 {
        self.value
    }

    /// The value `value`, which must not be zero.
    pub closed spec fn spec_new(value: u32) -> NonZeroU32 {
        NonZeroU32 { value }
    }

    pub proof fn lemma_spec_new(value: u32)
        ensures
            Self::spec_new(value).spec_get() == value,
    {
    }

    /// `None` for zero.
    pub fn new(value: u32) -> (r: Option<NonZeroU32>)
        ensures
            r is None <==> value == 0,
            r matches Some(n) ==> n.spec_get() == value && n == Self::spec_new(value),
    {
        if value == 0 {
            None
        } else {
            Some(NonZeroU32 { value })
        }
    }

    pub fn get(&self) -> (v: u32)
        ensures
            v == self.spec_get(),
            v > 0,
    {
        proof {
            use_type_invariant(self);
        }
        self.value
    }
}

/// Knobs of the proactive rate limiter.
#[derive(Clone, Copy, Debug, PartialEq, Eq)]
pub struct RateLimitConfig {
    /// Requests allowed in any rolling `per` window. Also the burst size:
    /// the bucket starts full.
    pub rate: NonZeroU32,
    /// Window over which `rate` requests are allowed.
    pub per: Duration,
}

/// The policy Protect advertises: 10 requests per second.
pub open spec fn default_config() -> RateLimitConfig {
    RateLimitConfig { rate: NonZeroU32::spec_new(10), per: Duration::secs_spec(1) }
}

pub proof fn lemma_default_config()
    ensures
        default_config().rate.spec_get() == 10,
        default_config().per@ == 1_000_000_000,
{
    NonZeroU32::lemma_spec_new(10);
    Duration::lemma_secs_spec(1);
}

impl RateLimitConfig {
    /// The refill period of one cell, `per / rate` rounded down.
    pub open spec fn cell_period_spec(self) -> nat {
        self.per@ / (self.rate.spec_get() as nat)
    }

    /// The policy Protect advertises: 10 requests per second.
    pub fn default() -> (c: RateLimitConfig)
        ensures
            c.rate.spec_get() == 10,
            c.per@ == 1_000_000_000,
            c == default_config(),
    {
        let rate = NonZeroU32::new(10);
        match rate {
            Some(rate) => RateLimitConfig { rate, per: Duration::from_secs(1) },
            None => {
                assert(false);
                RateLimitConfig { rate: NonZeroU32 { value: 10 }, per: Duration::from_secs(1) }
            },
        }
    }

    /// The refill period of one cell: `per / rate`.
    pub fn cell_period(&self) -> (d: Duration)
        ensures
            d@ == self.cell_period_spec(),
    {
        let rate = self.rate.get();
        match self.per.checked_div(rate) {
            Some(d) => d,
            None => {
                assert(false);
                Duration::zero()
            },
        }
    }

    /// The `governor` quota: one cell every `per / rate`, burst `rate`.
    /// The period must not round down to zero.
    pub fn quota(&self) -> (q: RateQuota)
        requires
            self.cell_period_spec() > 0,
        ensures
            q.period_nanos() == self.cell_period_spec(),
            q.burst() == self.rate.spec_get(),
    {
        let period = self.cell_period();
        let rate = self.rate.get();
        let secs = period.as_secs();
        let nanos = period.subsec_nanos();
        let ghost n = period@;
        assert(secs * 1_000_000_000 + nanos == n) by (nonlinear_arith)
            requires
                secs == n / 1_000_000_000,
                nanos == n % 1_000_000_000,
        ;
        let q = quota_with_period(secs, nanos);
        quota_allow_burst(q.unwrap(), rate)
    }
}

/// The advertised policy refills one cell every 100 ms and lets 10
/// requests through at once: 10 requests per 1-second window.
pub proof fn lemma_default_quota_is_ten_per_second()
    ensures
        default_config().cell_period_spec() == 100_000_000,
        default_config().rate.spec_get() == 10,
        default_config().rate.spec_get() * default_config().cell_period_spec()
            == default_config().per@,
{
    lemma_default_config();
}

/// A `governor` quota together with what it was made with: it refills
/// one cell every [`RateQuota::period_nanos`] nanoseconds and lets at most
/// [`RateQuota::burst`] cells through at once.
pub struct RateQuota {
    inner: governor::Quota,
    period: Ghost<nat>,
    burst: Ghost<nat>,
}

impl RateQuota {
    /// Nanoseconds to replenish one cell.
    pub closed spec fn period_nanos(self) -> nat {
        self.period@
    }

    /// Cells allowed through at once.
    pub closed spec fn burst(self) -> nat {
        self.burst@
    }

    /// The `governor` quota, for building a limiter.
    pub fn governor_quota(&self) -> governor::Quota {
        self.inner
    }
}

/// The span of `secs` seconds and `nanos` nanoseconds, in nanoseconds.
pub open spec fn span_nanos(secs: u64, nanos: u32) -> nat {
    (secs * 1_000_000_000 + nanos) as nat
}

/// `governor::Quota::with_period`: `None` exactly when the period is zero,
/// else a quota that replenishes one cell per period with a burst of one
/// (its `max_burst` starts at 1).
#[verifier::external_body]
fn quota_with_period(secs: u64, nanos: u32) -> (q: Option<RateQuota>)
    requires
        nanos < 1_000_000_000,
    ensures
        q is Some <==> (secs > 0 || nanos > 0),
        q matches Some(x) ==> x.period_nanos() == span_nanos(secs, nanos) && x.burst() == 1,
{
    match governor::Quota::with_period(std::time::Duration::new(secs, nanos)) {
        Some(inner) => Some(RateQuota { inner, period: Ghost(span_nanos(secs, nanos)), burst: Ghost(1) }),
        None => None,
    }
}

/// `governor::Quota::allow_burst`: the same period, with the burst set to
/// `burst`, which must be non-zero.
#[verifier::external_body]
fn quota_allow_burst(q: RateQuota, burst: u32) -> (r: RateQuota)
    requires
        burst > 0,
    ensures
        r.period_nanos() == q.period_nanos(),
        r.burst() == burst,
{
    let inner = q.inner.allow_burst(std::num::NonZeroU32::new(burst).expect("burst is non-zero"));
    RateQuota { inner, period: q.period, burst: Ghost(burst as nat) }
}

} // verus!
