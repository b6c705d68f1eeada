//! A span of time with nanosecond precision and the range of
//! `std::time::Duration` (up to `u64::MAX` seconds plus 999 999 999 ns).
//! Its view is the number of nanoseconds.

use vstd::prelude::*;

verus! {

pub const NANOS_PER_SEC: u128 = 1_000_000_000;

pub const NANOS_PER_MILLI: u128 = 1_000_000;

/// Largest representable span, in nanoseconds.
pub const MAX_NANOS: u128 = 18_446_744_073_709_551_615 * 1_000_000_000 + 999_999_999;

pub open spec fn max_nanos() -> int {
    18_446_744_073_709_551_615int * 1_000_000_000 + 999_999_999
}

pub open spec fn min_int(a: int, b: int) -> int {
    if a <= b {
        a
    } else {
        b
    }
}

#[derive(Clone, Copy, Debug, PartialEq, Eq, PartialOrd, Ord, Hash)]
pub struct Duration {
    nanos: u128,
}

impl View for Duration {
    type V = nat;

    closed spec fn view(&self) -> nat {
        self.nanos as nat
    }
}

impl Duration {
    /// Every value stays within the range of `std::time::Duration`.
    #[verifier::type_invariant]
    closed spec fn in_range(self) -> bool {
        self.nanos <= MAX_NANOS
    }

    /// States the range bound of this value to the caller's proof.
    pub fn in_range_fact(&self)
        ensures
            self@ <= max_nanos(),
    {
        proof {
            use_type_invariant(self);
        }
    }

    pub fn zero() -> (d: Duration)
        ensures
            d@ == 0,
    {
        Duration { nanos: 0 }
    }

    pub fn max_value() -> (d: Duration)
        ensures
            d@ == max_nanos(),
    {
        Duration { nanos: MAX_NANOS }
    }

    /// The span of `secs` seconds.
    pub closed spec fn secs_spec(secs: u64) -> Duration {
        Duration { nanos: (secs * 1_000_000_000) as u128 }
    }

    pub proof fn lemma_secs_spec(secs: u64)
        ensures
            Self::secs_spec(secs)@ == secs * 1_000_000_000,
    {
        assert(secs * 1_000_000_000 <= max_nanos()) by (nonlinear_arith)
            requires
                secs <= 18_446_744_073_709_551_615u64,
        ;
    }

    pub fn from_secs(secs: u64) -> (d: Duration)
        ensures
            d@ == secs * 1_000_000_000,
            d == Self::secs_spec(secs),
    {
        assert(secs * 1_000_000_000 <= max_nanos()) by (nonlinear_arith)
            requires
                secs <= 18_446_744_073_709_551_615u64,
        ;
        Duration { nanos: (secs as u128) * NANOS_PER_SEC }
    }

    pub fn from_millis(millis: u64) -> (d: Duration)
        ensures
            d@ == millis * 1_000_000,
    {
        assert(millis * 1_000_000 <= max_nanos()) by (nonlinear_arith)
            requires
                millis <= 18_446_744_073_709_551_615u64,
        ;
        Duration { nanos: (millis as u128) * NANOS_PER_MILLI }
    }

    /// `Duration::new(secs, nanos)`; the sum must stay in range.
    pub fn new(secs: u64, nanos: u32) -> (d: Duration)
        requires
            secs * 1_000_000_000 + nanos <= max_nanos(),
        ensures
            d@ == secs * 1_000_000_000 + nanos,
    {
        assert(secs * 1_000_000_000 <= secs * 1_000_000_000) by (nonlinear_arith);
        assert((secs as u128) * NANOS_PER_SEC == secs * 1_000_000_000) by (nonlinear_arith)
            requires
                secs <= 18_446_744_073_709_551_615u64,
        ;
        Duration { nanos: (secs as u128) * NANOS_PER_SEC + (nanos as u128) }
    }

    pub fn as_nanos(&self) -> (n: u128)
        ensures
            n == self@,
    {
        self.nanos
    }

    pub fn as_millis(&self) -> (n: u128)
        ensures
            n == self@ / 1_000_000,
    {
        self.nanos / NANOS_PER_MILLI
    }

    pub fn as_secs(&self) -> (n: u64)
        ensures
            n == self@ / 1_000_000_000,
    {
        proof {
            use_type_invariant(self);
        }
        assert(self.nanos / NANOS_PER_SEC <= 18_446_744_073_709_551_615u64) by (nonlinear_arith)
            requires
                self.nanos <= MAX_NANOS,
        ;
        (self.nanos / NANOS_PER_SEC) as u64
    }

    pub fn subsec_nanos(&self) -> (n: u32)
        ensures
            n == self@ % 1_000_000_000,
    {
        (self.nanos % NANOS_PER_SEC) as u32
    }

    pub fn is_zero(&self) -> (b: bool)
        ensures
            b == (self@ == 0),
    {
        self.nanos == 0
    }

    pub fn lt(&self, other: &Duration) -> (b: bool)
        ensures
            b == (self@ < other@),
    {
        self.nanos < other.nanos
    }

    pub fn le(&self, other: &Duration) -> (b: bool)
        ensures
            b == (self@ <= other@),
    {
        self.nanos <= other.nanos
    }

    /// `Duration::min`.
    pub fn min(self, other: Duration) -> (d: Duration)
        ensures
            d@ == min_int(self@ as int, other@ as int),
    {
        if self.nanos <= other.nanos {
            self
        } else {
            other
        }
    }

    /// `Duration::saturating_mul`: the product, or the largest span when
    /// the product is out of range.
    pub fn saturating_mul(self, k: u32) -> (d: Duration)
        ensures
            d@ == min_int(self@ * k, max_nanos()),
    {
        proof {
            use_type_invariant(&self);
        }
        assert(self.nanos * (k as u128) <= MAX_NANOS * 4_294_967_295u128) by (nonlinear_arith)
            requires
                self.nanos <= MAX_NANOS,
                k <= 4_294_967_295u32,
        ;
        let p = self.nanos * (k as u128);
        if p <= MAX_NANOS {
            Duration { nanos: p }
        } else {
            Duration { nanos: MAX_NANOS }
        }
    }

    /// `Duration + Duration`; the sum must stay in range.
    pub fn add(self, other: Duration) -> (d: Duration)
        requires
            self@ + other@ <= max_nanos(),
        ensures
            d@ == self@ + other@,
    {
        Duration { nanos: self.nanos + other.nanos }
    }

    /// `Duration::checked_div`: `None` for a zero divisor, else the
    /// quotient rounded down.
    pub fn checked_div(self, k: u32) -> (d: Option<Duration>)
        ensures
            d is None <==> k == 0,
            d matches Some(q) ==> q@ == self@ / (k as nat),
    {
        if k == 0 {
            None
        } else {
            proof {
                use_type_invariant(&self);
            }
            assert(self.nanos / (k as u128) <= self.nanos) by (nonlinear_arith)
                requires
                    k > 0,
            ;
            Some(Duration { nanos: self.nanos / (k as u128) })
        }
    }
}

} // verus!
