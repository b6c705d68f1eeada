//! Retry policy that honours the `Retry-After` response header.
//!
//! - 429 Too Many Requests: retry after `Retry-After` seconds when the
//!   header holds a delta-seconds value (capped at `max_backoff`), else
//!   after the exponential backoff.
//! - 5xx and 408: retry after the exponential backoff.
//! - Transport failures that are timeouts, connect failures, or carry a
//!   5xx/429/408 status: retry after the exponential backoff.
//! - Anything else, or once `max_retries` retries have happened: stop and
//!   surface the outcome unchanged.
//!
//! The backoff is `initial_backoff * 2^attempt` (saturating), capped at
//! `max_backoff`, plus up to 99 ms of random jitter. The HTTP plumbing
//! that sends, drains and sleeps lives with the caller; this module
//! decides.

use vstd::prelude::*;

use crate::text::{chars_of, decimal, is_ws_char, trim, trim_end, trim_start};
use crate::time::{max_nanos, min_int, Duration};

verus! {

/// `2^n`.
pub open spec fn pow2(n: nat) -> nat
    decreases n,
{
    if n == 0 {
        1
    } else {
        2 * pow2((n - 1) as nat)
    }
}

/// Multiplier applied to `initial_backoff` after `attempt` attempts:
/// `1u32.checked_shl(attempt).unwrap_or(u32::MAX)`.
pub open spec fn backoff_factor(attempt: u32) -> nat {
    if attempt < 32 {
        pow2(attempt as nat)
    } else {
        4_294_967_295
    }
}

proof fn lemma_pow2_monotone(i: nat, j: nat)
    requires
        i <= j,
    ensures
        pow2(i) <= pow2(j),
    decreases j,
{
    if i < j {
        lemma_pow2_monotone(i, (j - 1) as nat);
    }
}

proof fn lemma_pow2_31()
    ensures
        pow2(31) == 2_147_483_648,
{
    reveal_with_fuel(pow2, 32);
}

/// The multiplier `1u32.checked_shl(attempt).unwrap_or(u32::MAX)`.
pub fn shift_factor(attempt: u32) -> (f: u32)
    ensures
        f == backoff_factor(attempt),
{
    if attempt >= 32 {
        return u32::MAX;
    }
    let mut f: u32 = 1;
    let mut i: u32 = 0;
    while i < attempt
        invariant
            i <= attempt < 32,
            f == pow2(i as nat),
        decreases attempt - i,
    {
        proof {
            lemma_pow2_monotone((i + 1) as nat, 31);
            lemma_pow2_31();
        }
        f = f * 2;
        i = i + 1;
    }
    f
}

/// Whether a decimal digit.
pub open spec fn is_digit(c: char) -> bool {
    '0' <= c && c <= '9'
}

pub open spec fn digit_value(c: char) -> nat {
    (c as nat - '0' as nat) as nat
}

/// Value of a string of decimal digits.
pub open spec fn digits_value(s: Seq<char>) -> nat
    decreases s.len(),
{
    if s.len() == 0 {
        0
    } else {
        digits_value(s.drop_last()) * 10 + digit_value(s.last())
    }
}

/// The digits of a decimal literal: `s` without one leading `+`.
pub open spec fn unsigned_body(s: Seq<char>) -> Seq<char> {
    if s.len() > 0 && s[0] == '+' {
        s.drop_first()
    } else {
        s
    }
}

/// `<u64 as FromStr>::from_str`: an optional `+`, then one or more decimal
/// digits whose value fits in a `u64`.
pub open spec fn parse_u64_spec(s: Seq<char>) -> Option<u64> {
    let body = unsigned_body(s);
    if body.len() > 0 && (forall|i: int| 0 <= i < body.len() ==> is_digit(#[trigger] body[i]))
        && digits_value(body) <= u64::MAX {
        Some(digits_value(body) as u64)
    } else {
        None
    }
}

proof fn lemma_digits_value_grows(s: Seq<char>, n: int)
    requires
        0 <= n <= s.len(),
        forall|i: int| 0 <= i < s.len() ==> is_digit(#[trigger] s[i]),
    ensures
        digits_value(s.subrange(0, n)) <= digits_value(s),
    decreases s.len() - n,
{
    if n < s.len() {
        lemma_digits_value_grows(s.drop_last(), n);
        assert(s.drop_last().subrange(0, n) == s.subrange(0, n));
    } else {
        assert(s.subrange(0, n) == s);
    }
}

/// Parses a decimal `u64` the way `str::parse::<u64>` does.
pub fn parse_u64(s: &str) -> (r: Option<u64>)
    ensures
        r == parse_u64_spec(s@),
{
    let v = chars_of(s);
    let start: usize = if v.len() > 0 && v[0] == '+' {
        1
    } else {
        0
    };
    let ghost body = v@.subrange(start as int, v@.len() as int);
    assert(body == unsigned_body(s@));
    if start == v.len() {
        return None;
    }
    let mut acc: u64 = 0;
    let mut i: usize = start;
    while i < v.len()
        invariant
            start <= i <= v.len(),
            v@ == s@,
            body == v@.subrange(start as int, v@.len() as int),
            body == unsigned_body(s@),
            forall|k: int| start <= k < i ==> is_digit(#[trigger] v@[k]),
            acc == digits_value(v@.subrange(start as int, i as int)),
        decreases v.len() - i,
    {
        let c = v[i];
        if !('0' <= c && c <= '9') {
            assert(body[i - start] == c);
            assert(!is_digit(body[i - start]));
            assert(!(forall|k: int| 0 <= k < body.len() ==> is_digit(#[trigger] body[k])));
            assert(parse_u64_spec(s@) is None);
            return None;
        }
        let ghost prefix = v@.subrange(start as int, i + 1);
        assert(prefix.drop_last() == v@.subrange(start as int, i as int));
        assert(prefix.last() == c);
        let d: u64 = (c as u64) - ('0' as u64);
        if acc > (u64::MAX - d) / 10 {
            proof {
                assert(forall|k: int| 0 <= k < prefix.len() ==> is_digit(#[trigger] prefix[k]));
                assert(acc * 10 + d > u64::MAX) by (nonlinear_arith)
                    requires
                        acc > (u64::MAX - d) / 10,
                        d <= 9,
                ;
                assert(digits_value(prefix) == acc * 10 + d);
                if forall|k: int| 0 <= k < body.len() ==> is_digit(#[trigger] body[k]) {
                    lemma_digits_value_grows(body, (i + 1 - start) as int);
                    assert(body.subrange(0, (i + 1 - start) as int) == prefix);
                    assert(digits_value(body) > u64::MAX);
                }
                assert(parse_u64_spec(s@) is None);
            }
            return None;
        }
        assert(acc * 10 + d <= u64::MAX) by (nonlinear_arith)
            requires
                acc <= (u64::MAX - d) / 10,
                d <= 9,
        ;
        acc = acc * 10 + d;
        i = i + 1;
    }
    assert(body == v@.subrange(start as int, v.len() as int));
    Some(acc)
}

/// A transport-level failure, described by the facts the retry decision
/// reads from it.
#[derive(Clone, Copy, Debug, PartialEq, Eq)]
pub struct TransportFailure {
    /// The failure came from the HTTP client itself (rather than from a
    /// middleware layer).
    pub from_client: bool,
    pub timeout: bool,
    pub connect: bool,
    /// HTTP status attached to the failure, if any.
    pub status: Option<u16>,
}

/// What one attempt produced.
#[derive(Clone, Debug, PartialEq, Eq)]
pub enum AttemptOutcome {
    /// A response arrived. `retry_after` is the `Retry-After` header value
    /// when present and representable as text.
    Response { status: u16, retry_after: Option<String> },
    /// The request failed before a response arrived.
    Failure(TransportFailure),
}

pub open spec fn is_server_error(status: u16) -> bool {
    500 <= status <= 599
}

/// Whether a transport failure is worth retrying.
pub open spec fn is_transient_spec(f: TransportFailure) -> bool {
    f.from_client && (f.timeout || f.connect || (f.status matches Some(s) && (
    is_server_error(s) || s == 429 || s == 408)))
}

/// Whether a transport failure is worth retrying: a timeout or connect
/// failure of the HTTP client, or one that carries a 5xx, 429 or 408.
pub fn is_transient(f: &TransportFailure) -> (r: bool)
    ensures
        r == is_transient_spec(*f),
{
    if !f.from_client {
        return false;
    }
    if f.timeout || f.connect {
        return true;
    }
    if let Some(status) = f.status {
        if (500 <= status && status <= 599) || status == 429 || status == 408 {
            return true;
        }
    }
    false
}

/// What the policy decides after one attempt, before any jitter is drawn.
pub enum RetryKind {
    /// Surface the outcome as it is.
    Stop,
    /// Retry after this many seconds, as the server asked (before capping).
    RetryAfterSecs(u64),
    /// Retry after the exponential backoff for this attempt.
    Backoff,
}

/// `Retry-After` seconds from a header value: trimmed, then parsed as a
/// decimal `u64`.
pub open spec fn retry_after_secs(header: Option<String>) -> Option<u64> {
    match header {
        Some(v) => parse_u64_spec(trim(v@)),
        None => None,
    }
}

/// Delay to wait before the next attempt, in nanoseconds, given the jitter.
pub open spec fn backoff_nanos(initial: nat, max_backoff: nat, attempt: u32, jitter_ms: nat) -> int {
    min_int(min_int((initial * backoff_factor(attempt)) as int, max_nanos()), max_backoff as int)
        + jitter_ms * 1_000_000
}

/// The policy's knobs.
#[derive(Clone, Copy, Debug, PartialEq, Eq)]
pub struct RetryAfterAwareMiddleware {
    pub max_retries: u32,
    pub initial_backoff: Duration,
    pub max_backoff: Duration,
}

impl RetryAfterAwareMiddleware {
    /// The decision for `outcome` after `attempt` retries.
    pub open spec fn kind(self, outcome: AttemptOutcome, attempt: u32) -> RetryKind {
        if attempt >= self.max_retries {
            RetryKind::Stop
        } else {
            match outcome {
                AttemptOutcome::Response { status, retry_after } => {
                    if status == 429 {
                        match retry_after_secs(retry_after) {
                            Some(secs) => RetryKind::RetryAfterSecs(secs),
                            None => RetryKind::Backoff,
                        }
                    } else if is_server_error(status) || status == 408 {
                        RetryKind::Backoff
                    } else {
                        RetryKind::Stop
                    }
                },
                AttemptOutcome::Failure(f) => {
                    if is_transient_spec(f) {
                        RetryKind::Backoff
                    } else {
                        RetryKind::Stop
                    }
                },
            }
        }
    }

    /// Backoff for `attempt` plus `jitter_ms`, in nanoseconds.
    pub open spec fn backoff_spec(self, attempt: u32, jitter_ms: nat) -> int {
        backoff_nanos(self.initial_backoff@, self.max_backoff@, attempt, jitter_ms)
    }

    /// The largest jitter keeps the backoff for `attempt` in range, so that
    /// adding it cannot overflow.
    pub open spec fn jitter_fits(self, attempt: u32) -> bool {
        self.backoff_spec(attempt, 99) <= max_nanos()
    }

    /// The delay decided for `outcome` after `attempt` retries, when the
    /// jitter drawn is `jitter_ms`; `None` means stop.
    pub open spec fn decide_spec(self, outcome: AttemptOutcome, attempt: u32, jitter_ms: nat) -> Option<
        int,
    > {
        match self.kind(outcome, attempt) {
            RetryKind::Stop => None,
            RetryKind::RetryAfterSecs(secs) => Some(
                min_int(secs * 1_000_000_000, self.max_backoff@ as int),
            ),
            RetryKind::Backoff => Some(self.backoff_spec(attempt, jitter_ms)),
        }
    }

    /// The exponential backoff for `attempt` with a given jitter:
    /// `min(initial * 2^attempt, max_backoff) + jitter_ms`.
    pub fn backoff_with_jitter(&self, attempt: u32, jitter_ms: u64) -> (d: Duration)
        requires
            self.backoff_spec(attempt, jitter_ms as nat) <= max_nanos(),
        ensures
            d@ == self.backoff_spec(attempt, jitter_ms as nat),
    {
        let exp = self.initial_backoff.saturating_mul(shift_factor(attempt));
        let capped = exp.min(self.max_backoff);
        capped.add(Duration::from_millis(jitter_ms))
    }

    /// The exponential backoff for `attempt`, with up to 99 ms of random
    /// jitter.
    pub fn backoff_for(&self, attempt: u32) -> (d: Duration)
        requires
            self.jitter_fits(attempt),
        ensures
            exists|j: nat| j < 100 && d@ == self.backoff_spec(attempt, j),
    {
        let jitter = jitter_millis();
        self.backoff_with_jitter(attempt, jitter)
    }

    /// The retry decision for `outcome` after `attempt` retries, given the
    /// jitter the backoff would add.
    pub fn decide_retry_with_jitter(&self, outcome: &AttemptOutcome, attempt: u32, jitter_ms: u64) -> (r:
        Option<Duration>)
        requires
            self.kind(*outcome, attempt) is Backoff ==> self.backoff_spec(attempt, jitter_ms as nat)
                <= max_nanos(),
        ensures
            match self.decide_spec(*outcome, attempt, jitter_ms as nat) {
                None => r is None,
                Some(n) => r matches Some(d) && d@ == n,
            },
    {
        match self.decide_kind(outcome, attempt) {
            RetryKind::Stop => None,
            RetryKind::RetryAfterSecs(secs) => Some(Duration::from_secs(secs).min(self.max_backoff)),
            RetryKind::Backoff => Some(self.backoff_with_jitter(attempt, jitter_ms)),
        }
    }

    /// The retry decision for `outcome` after `attempt` retries; `None`
    /// means stop. A backoff delay carries random jitter below 100 ms.
    pub fn decide_retry(&self, outcome: &AttemptOutcome, attempt: u32) -> (r: Option<Duration>)
        requires
            self.kind(*outcome, attempt) is Backoff ==> self.jitter_fits(attempt),
        ensures
            exists|j: nat|
                j < 100 && match #[trigger] self.decide_spec(*outcome, attempt, j) {
                    None => r is None,
                    Some(n) => r matches Some(d) && d@ == n,
                },
    {
        match self.decide_kind(outcome, attempt) {
            RetryKind::Stop => {
                assert(self.decide_spec(*outcome, attempt, 0) is None);
                None
            },
            RetryKind::RetryAfterSecs(secs) => {
                let d = Duration::from_secs(secs).min(self.max_backoff);
                assert(self.decide_spec(*outcome, attempt, 0) == Some(d@ as int));
                Some(d)
            },
            RetryKind::Backoff => {
                let d = self.backoff_for(attempt);
                let ghost j = choose|j: nat| j < 100 && d@ == self.backoff_spec(attempt, j);
                assert(self.decide_spec(*outcome, attempt, j) == Some(d@ as int));
                Some(d)
            },
        }
    }

    /// Whether the backoff for `attempt`, with the largest jitter, stays in
    /// range (adding the jitter would overflow otherwise).
    pub fn jitter_fits_at(&self, attempt: u32) -> (b: bool)
        ensures
            b == self.jitter_fits(attempt),
    {
        let exp = self.initial_backoff.saturating_mul(shift_factor(attempt));
        let capped = exp.min(self.max_backoff);
        capped.in_range_fact();
        capped.as_nanos() <= crate::time::MAX_NANOS - 99 * crate::time::NANOS_PER_MILLI
    }

    /// Which of the three decisions applies.
    pub fn decide_kind(&self, outcome: &AttemptOutcome, attempt: u32) -> (k: RetryKind)
        ensures
            k == self.kind(*outcome, attempt),
    {
        if attempt >= self.max_retries {
            return RetryKind::Stop;
        }
        match outcome {
            AttemptOutcome::Response { status, retry_after } => {
                if *status == 429 {
                    let from_header = match retry_after {
                        Some(v) => {
                            let t = crate::text::trim_owned(v.as_str());
                            parse_u64(t.as_str())
                        },
                        None => None,
                    };
                    match from_header {
                        Some(secs) => RetryKind::RetryAfterSecs(secs),
                        None => RetryKind::Backoff,
                    }
                } else if (500 <= *status && *status <= 599) || *status == 408 {
                    RetryKind::Backoff
                } else {
                    RetryKind::Stop
                }
            },
            AttemptOutcome::Failure(f) => {
                if is_transient(f) {
                    RetryKind::Backoff
                } else {
                    RetryKind::Stop
                }
            },
        }
    }
}

/// Steps the retry policy has taken for one request.
pub struct RetryLoop {
    attempt: u32,
}

/// What to do after an attempt.
pub enum RetryStep {
    /// Hand the attempt's outcome to the caller.
    Return,
    /// Drain the response, wait this long, then send the request again.
    SleepThenRetry(Duration),
}

impl RetryLoop {
    pub closed spec fn attempt_spec(&self) -> u32 {
        self.attempt
    }

    pub fn new() -> (l: RetryLoop)
        ensures
            l.attempt_spec() == 0,
    {
        RetryLoop { attempt: 0 }
    }

    /// Retries taken so far.
    pub fn attempt(&self) -> (n: u32)
        ensures
            n == self.attempt_spec(),
    {
        self.attempt
    }

    /// Feeds the outcome of the latest attempt to the policy.
    pub fn step(&mut self, policy: &RetryAfterAwareMiddleware, outcome: &AttemptOutcome) -> (r:
        RetryStep)
        requires
            policy.kind(*outcome, old(self).attempt_spec()) is Backoff ==> policy.jitter_fits(
                old(self).attempt_spec(),
            ),
        ensures
            match r {
                RetryStep::Return => {
                    &&& policy.kind(*outcome, old(self).attempt_spec()) is Stop
                    &&& final(self).attempt_spec() == old(self).attempt_spec()
                },
                RetryStep::SleepThenRetry(d) => {
                    &&& !(policy.kind(*outcome, old(self).attempt_spec()) is Stop)
                    &&& final(self).attempt_spec() == old(self).attempt_spec() + 1
                    &&& exists|j: nat|
                        j < 100 && #[trigger] policy.decide_spec(
                            *outcome,
                            old(self).attempt_spec(),
                            j,
                        ) == Some(d@ as int)
                },
            },
            final(self).attempt_spec() <= policy.max_retries || final(self).attempt_spec()
                == old(self).attempt_spec(),
    {
        match policy.decide_retry(outcome, self.attempt) {
            None => RetryStep::Return,
            Some(d) => {
                self.attempt = self.attempt + 1;
                RetryStep::SleepThenRetry(d)
            },
        }
    }
}

/// Number of retries the policy takes for a request whose attempts
/// produce `outcomes` in turn, starting after `attempt` retries.
pub open spec fn retries_taken(
    policy: RetryAfterAwareMiddleware,
    attempt: u32,
    outcomes: Seq<AttemptOutcome>,
) -> nat
    decreases outcomes.len(),
{
    if outcomes.len() == 0 || policy.kind(outcomes[0], attempt) is Stop {
        0
    } else {
        1 + retries_taken(policy, (attempt + 1) as u32, outcomes.drop_first())
    }
}

proof fn lemma_retries_bounded_from(
    policy: RetryAfterAwareMiddleware,
    attempt: u32,
    outcomes: Seq<AttemptOutcome>,
)
    requires
        attempt <= policy.max_retries,
    ensures
        retries_taken(policy, attempt, outcomes) <= policy.max_retries - attempt,
    decreases outcomes.len(),
{
    if outcomes.len() > 0 && !(policy.kind(outcomes[0], attempt) is Stop) {
        lemma_retries_bounded_from(policy, (attempt + 1) as u32, outcomes.drop_first());
    }
}

/// Whatever the server answers, a request is retried at most
/// `max_retries` times, so it is sent at most `max_retries + 1` times.
pub proof fn lemma_retries_bounded(policy: RetryAfterAwareMiddleware, outcomes: Seq<AttemptOutcome>)
    ensures
        retries_taken(policy, 0, outcomes) <= policy.max_retries,
{
    lemma_retries_bounded_from(policy, 0, outcomes);
}

/// Every delay the policy chooses is at most `max_backoff` plus the jitter
/// (under 100 ms); a server-supplied `Retry-After` is capped at
/// `max_backoff` exactly.
pub proof fn lemma_delay_capped(
    policy: RetryAfterAwareMiddleware,
    outcome: AttemptOutcome,
    attempt: u32,
    jitter_ms: nat,
)
    requires
        jitter_ms < 100,
    ensures
        policy.decide_spec(outcome, attempt, jitter_ms) matches Some(n) ==> n <= policy.max_backoff@
            + 99_000_000,
        policy.kind(outcome, attempt) is RetryAfterSecs ==> (policy.decide_spec(
            outcome,
            attempt,
            jitter_ms,
        ) matches Some(n) && n <= policy.max_backoff@),
{
}

/// Responses other than 429, 408 and 5xx are never retried, and nothing
/// is retried once `max_retries` retries have happened.
pub proof fn lemma_stop_cases(policy: RetryAfterAwareMiddleware, outcome: AttemptOutcome, attempt: u32)
    ensures
        attempt >= policy.max_retries ==> policy.kind(outcome, attempt) is Stop,
        (outcome matches AttemptOutcome::Response { status, .. } && status != 429 && status != 408
            && !is_server_error(status)) ==> policy.kind(outcome, attempt) is Stop,
{
}

/// Before `max_retries` retries: every 5xx response (500 through 599)
/// and every 408 is retried after the exponential backoff, whatever its
/// `Retry-After`; a 429 without a `Retry-After` header is retried after
/// the backoff too; and a transport failure of the client that timed out
/// or could not connect is retried after the backoff.
pub proof fn lemma_transient_answers_are_retried(
    policy: RetryAfterAwareMiddleware,
    status: u16,
    retry_after: Option<String>,
    attempt: u32,
    jitter_ms: nat,
)
    requires
        attempt < policy.max_retries,
    ensures
        (500 <= status && status <= 599) || status == 408 ==> policy.kind(
            AttemptOutcome::Response { status, retry_after },
            attempt,
        ) is Backoff && policy.decide_spec(
            AttemptOutcome::Response { status, retry_after },
            attempt,
            jitter_ms,
        ) == Some(policy.backoff_spec(attempt, jitter_ms)),
        policy.decide_spec(AttemptOutcome::Response { status: 429, retry_after: None }, attempt, jitter_ms)
            == Some(policy.backoff_spec(attempt, jitter_ms)),
        forall|f: TransportFailure|
            f.from_client && (f.timeout || f.connect) ==> #[trigger] policy.decide_spec(
                AttemptOutcome::Failure(f),
                attempt,
                jitter_ms,
            ) == Some(policy.backoff_spec(attempt, jitter_ms)),
{
}

/// The delay before a retry after `attempt` retries, without jitter, is
/// `initial_backoff` doubled `attempt` times, capped at `max_backoff`:
/// with 100 ms initial and 2 s cap, the first retry waits 100 ms, then
/// 200 ms, 400 ms, 800 ms, 1.6 s, and 2 s from then on.
pub proof fn lemma_backoff_doubles(policy: RetryAfterAwareMiddleware, attempt: u32)
    requires
        attempt < 31,
        policy.initial_backoff@ * 2147483648 <= max_nanos(),
    ensures
        policy.backoff_spec(attempt, 0) == min_int(
            (policy.initial_backoff@ * pow2(attempt as nat)) as int,
            policy.max_backoff@ as int,
        ),
        policy.backoff_spec((attempt + 1) as u32, 0) == min_int(
            (2 * (policy.initial_backoff@ * pow2(attempt as nat))) as int,
            policy.max_backoff@ as int,
        ),
{
    let i = policy.initial_backoff@;
    lemma_pow2_monotone(attempt as nat, 31);
    lemma_pow2_monotone((attempt + 1) as nat, 31);
    lemma_pow2_31();
    assert(backoff_factor(attempt) == pow2(attempt as nat));
    assert(backoff_factor((attempt + 1) as u32) == pow2((attempt + 1) as nat));
    assert(pow2((attempt + 1) as nat) == 2 * pow2(attempt as nat));
    let p = pow2(attempt as nat);
    assert(i * p <= i * 2147483648) by (nonlinear_arith)
        requires
            p <= 2147483648,
    ;
    assert(i * (2 * p) == 2 * (i * p)) by (nonlinear_arith);
    assert(i * (2 * p) <= i * 2147483648) by (nonlinear_arith)
        requires
            2 * p <= 2147483648,
    ;
}

/// The decimal text of `n` is all digits and has value `n`.
proof fn lemma_decimal_digits(n: nat)
    ensures
        decimal(n).len() > 0,
        forall|i: int| 0 <= i < decimal(n).len() ==> is_digit(#[trigger] decimal(n)[i]),
        digits_value(decimal(n)) == n,
    decreases n,
{
    if n >= 10 {
        lemma_decimal_digits(n / 10);
        let d = decimal(n);
        let c = ((n % 10) + 48) as char;
        assert(d == decimal(n / 10) + seq![c]);
        assert(d.drop_last() =~= decimal(n / 10));
        assert(d.last() == c);
        assert forall|i: int| 0 <= i < d.len() implies is_digit(#[trigger] d[i]) by {
            if i < d.len() - 1 {
                assert(d[i] == decimal(n / 10)[i]);
            }
        }
        assert(c as nat == (n % 10) + 48);
        assert(digit_value(c) == n % 10);
        assert(digits_value(d) == digits_value(decimal(n / 10)) * 10 + digit_value(c));
        assert(n == (n / 10) * 10 + n % 10);
    } else {
        let d = decimal(n);
        let c = (n + 48) as char;
        assert(d == seq![c]);
        assert(c as nat == n + 48);
        assert(d.drop_last() =~= Seq::<char>::empty());
        assert(digits_value(d) == digits_value(d.drop_last()) * 10 + digit_value(d.last()));
    }
}

/// `Retry-After` is read the way `str::parse::<u64>` reads it: the
/// decimal text of any `u64` (with surrounding whitespace, or a leading
/// `+`) parses back to that number. So a 429 whose `Retry-After` is
/// `n` seconds, before `max_retries` retries, waits `n` seconds, capped
/// at `max_backoff`.
pub proof fn lemma_retry_after_honoured(
    policy: RetryAfterAwareMiddleware,
    n: u64,
    header: String,
    attempt: u32,
    jitter_ms: nat,
)
    requires
        attempt < policy.max_retries,
        header@ == decimal(n as nat),
    ensures
        parse_u64_spec(decimal(n as nat)) == Some(n),
        parse_u64_spec(seq!['+'] + decimal(n as nat)) == Some(n),
        trim(seq![' '] + decimal(n as nat) + seq![' ']) == decimal(n as nat),
        policy.decide_spec(
            AttemptOutcome::Response { status: 429, retry_after: Some(header) },
            attempt,
            jitter_ms,
        ) == Some(min_int(n * 1_000_000_000, policy.max_backoff@ as int)),
{
    let d = decimal(n as nat);
    lemma_decimal_digits(n as nat);
    assert(is_digit(d[0]));
    assert(is_digit(d.last())) by {
        assert(is_digit(d[d.len() - 1]));
    }
    assert(unsigned_body(d) == d);
    let p = seq!['+'] + d;
    assert(unsigned_body(p) =~= d);
    // trimming the bare digits changes nothing
    assert(trim_start(d) == d);
    assert(trim_end(d) == d);
    // trimming the padded digits removes exactly the two spaces
    let w = seq![' '] + d + seq![' '];
    assert(w.drop_first() =~= d + seq![' ']);
    assert(trim_start(d + seq![' ']) == d + seq![' ']) by {
        assert((d + seq![' '])[0] == d[0]);
    }
    assert(trim_start(w) == d + seq![' ']);
    assert((d + seq![' ']).drop_last() =~= d);
    assert(trim_end(d + seq![' ']) == trim_end(d));
}

/// With the jitter fixed, the backoff never shrinks as attempts accumulate.
pub proof fn lemma_backoff_monotone(policy: RetryAfterAwareMiddleware, a1: u32, a2: u32, jitter_ms: nat)
    requires
        a1 <= a2,
    ensures
        policy.backoff_spec(a1, jitter_ms) <= policy.backoff_spec(a2, jitter_ms),
{
    let f1 = backoff_factor(a1);
    let f2 = backoff_factor(a2);
    if a2 < 32 {
        lemma_pow2_monotone(a1 as nat, a2 as nat);
    } else if a1 < 32 {
        lemma_pow2_monotone(a1 as nat, 31);
        lemma_pow2_31();
    }
    assert(f1 <= f2);
    let i = policy.initial_backoff@;
    assert(i * f1 <= i * f2) by (nonlinear_arith)
        requires
            f1 <= f2,
    ;
}

/// With `initial_backoff` at most `max_backoff` (and `max_backoff` in
/// the range every `Duration` keeps to), every exponential backoff lies
/// between `initial_backoff` and `max_backoff`, plus the jitter.
pub proof fn lemma_backoff_within_bounds(
    policy: RetryAfterAwareMiddleware,
    attempt: u32,
    jitter_ms: nat,
)
    requires
        policy.initial_backoff@ <= policy.max_backoff@,
        policy.max_backoff@ <= max_nanos(),
    ensures
        policy.initial_backoff@ + jitter_ms * 1_000_000 <= policy.backoff_spec(attempt, jitter_ms),
        policy.backoff_spec(attempt, jitter_ms) <= policy.max_backoff@ + jitter_ms * 1_000_000,
{
    lemma_backoff_monotone(policy, 0, attempt, jitter_ms);
    assert(backoff_factor(0) == 1);
}

/// `rand::thread_rng().gen_range(0..100)`: a random whole number of
/// milliseconds, at most 99. The value drawn is chance; only its range is
/// stated.
#[verifier::external_body]
fn jitter_millis() -> (j: u64)
    ensures
        j < 100,
{
    rand::Rng::gen_range(&mut rand::thread_rng(), 0..100u64)
}

} // verus!
