//! Retry policy: classification of failures, exponential backoff waits with
//! jitter, and a time budget derived from the policy's parameters.
//!
//! Waits are in milliseconds. The first wait is the initial interval; each
//! later one is the previous wait times the multiplier (given in percent),
//! rounded down. The random jitter is drawn by the caller and handed in.
use vstd::prelude::*;

use crate::configuration::BackoffConfig;

verus! {

/// Parameters of the retry policy.
#[derive(Clone, Copy, Debug)]
pub struct RetryPolicy {
    /// Wait before the first retry, in seconds.
    pub initial_interval_secs: u64,
    /// Growth of the wait from one retry to the next, in percent (150 = 1.5x).
    pub multiplier_percent: u32,
    /// Most attempts made in all.
    pub max_retry: u32,
    /// Time allowed for one attempt, in seconds.
    pub per_attempt_timeout_secs: u64,
}

/// What went wrong in one attempt.
#[derive(Clone, Copy, Debug, PartialEq, Eq)]
pub enum FailureKind {
    Timeout,
    ConnectionReset,
    ConnectionFailed,
    /// The server's response could not be understood while negotiating.
    MalformedResponse,
    /// The server answered with a status that is not a success.
    HttpStatus(u16),
    AuthenticationFailed,
    MalformedUrl,
    /// The server did not declare the length of the content.
    MissingContentLength,
    /// Writing to or reading from the local disk failed.
    DiskError,
}

/// Why the policy stopped retrying.
#[derive(Clone, Copy, Debug, PartialEq, Eq)]
pub enum GiveUpReason {
    /// The failure is not one that a retry can mend.
    Fatal,
    /// The allowed number of attempts has been made.
    AttemptsExhausted,
    /// The next wait would pass the time budget.
    TimeBudgetExhausted,
}

/// What to do after a failed attempt.
#[derive(Clone, Copy, Debug, PartialEq, Eq)]
pub enum RetryDecision {
    /// Wait this many milliseconds, then try again.
    RetryAfter(u64),
    GiveUp(GiveUpReason),
}

/// Progress of one retried operation.
#[derive(Clone, Copy, Debug)]
pub struct RetryState {
    /// Attempts that have failed so far.
    pub attempt_count: u32,
    /// Milliseconds since the operation began, as of the last failure.
    pub elapsed_ms: u64,
    pub last_error: Option<FailureKind>,
}

/// Failures that a later attempt may not meet again: network timeouts and
/// connection failures, malformed responses, server errors (5xx) and rate
/// limiting (429).
pub open spec fn is_transient(f: FailureKind) -> bool {
    match f {
        FailureKind::Timeout => true,
        FailureKind::ConnectionReset => true,
        FailureKind::ConnectionFailed => true,
        FailureKind::MalformedResponse => true,
        FailureKind::HttpStatus(s) => (500 <= s && s <= 599) || s == 429,
        _ => false,
    }
}

/// The wait before retry number `k + 1`, without jitter, in milliseconds.
pub open spec fn backoff_wait_ms(p: RetryPolicy, k: nat) -> int
    decreases k,
{
    if k == 0 {
        p.initial_interval_secs * 1000
    } else {
        backoff_wait_ms(p, (k - 1) as nat) * p.multiplier_percent / 100
    }
}

/// The sum of the first `n` waits.
pub open spec fn sum_of_backoff_waits(p: RetryPolicy, n: nat) -> int
    decreases n,
{
    if n == 0 {
        0
    } else {
        sum_of_backoff_waits(p, (n - 1) as nat) + backoff_wait_ms(p, (n - 1) as nat)
    }
}

/// The time budget: the first `max_retry` backoff waits, plus the time
/// allowed for each of `max_retry` attempts.
pub open spec fn max_elapsed_ms_spec(p: RetryPolicy) -> int {
    sum_of_backoff_waits(p, p.max_retry as nat) + p.max_retry * p.per_attempt_timeout_secs * 1000
}

/// A wait moved by the jitter: `jitter` is the position in the band from 20%
/// below (0) to 20% above (400), in thousandths; larger values count as 400.
pub open spec fn jittered_ms(base: int, jitter: u64) -> int {
    let j: int = if jitter > 400 {
        400
    } else {
        jitter as int
    };
    base * (800 + j) / 1000
}

/// The decision after the `attempts`-th failed attempt.
pub open spec fn retry_decision(
    p: RetryPolicy,
    attempts: nat,
    elapsed_ms: int,
    failure: FailureKind,
    jitter: u64,
) -> RetryDecision {
    if !is_transient(failure) {
        RetryDecision::GiveUp(GiveUpReason::Fatal)
    } else if attempts >= p.max_retry {
        RetryDecision::GiveUp(GiveUpReason::AttemptsExhausted)
    } else {
        let w = jittered_ms(backoff_wait_ms(p, (attempts - 1) as nat), jitter);
        if w > u64::MAX || elapsed_ms + w > max_elapsed_ms_spec(p) {
            RetryDecision::GiveUp(GiveUpReason::TimeBudgetExhausted)
        } else {
            RetryDecision::RetryAfter(w as u64)
        }
    }
}

proof fn lemma_wait_nonneg(p: RetryPolicy, k: nat)
    ensures
        backoff_wait_ms(p, k) >= 0,
    decreases k,
{
    if k > 0 {
        lemma_wait_nonneg(p, (k - 1) as nat);
        let w = backoff_wait_ms(p, (k - 1) as nat);
        let m = p.multiplier_percent as int;
        assert(w * m >= 0) by (nonlinear_arith)
            requires
                w >= 0,
                m >= 0,
        ;
    }
}

proof fn lemma_sum_monotone(p: RetryPolicy, k: nat, n: nat)
    requires
        k <= n,
    ensures
        sum_of_backoff_waits(p, k) <= sum_of_backoff_waits(p, n),
    decreases n - k,
{
    if k < n {
        lemma_sum_monotone(p, k, (n - 1) as nat);
        lemma_wait_nonneg(p, (n - 1) as nat);
    }
}

proof fn lemma_wait_monotone(p: RetryPolicy, j: nat, k: nat)
    requires
        j <= k,
        p.multiplier_percent >= 100,
    ensures
        backoff_wait_ms(p, j) <= backoff_wait_ms(p, k),
    decreases k - j,
{
    if j < k {
        lemma_wait_monotone(p, j, (k - 1) as nat);
        lemma_wait_nonneg(p, (k - 1) as nat);
        let w = backoff_wait_ms(p, (k - 1) as nat);
        let m = p.multiplier_percent as int;
        assert(w * m / 100 >= w) by (nonlinear_arith)
            requires
                w >= 0,
                m >= 100,
        ;
    }
}

proof fn lemma_jitter_bounds(base: int, jitter: u64)
    requires
        base >= 0,
    ensures
        jittered_ms(base, jitter) >= base * 800 / 1000,
        jittered_ms(base, jitter) <= base * 1200 / 1000,
{
    let j: int = if jitter > 400 {
        400
    } else {
        jitter as int
    };
    assert(base * (800 + j) >= base * 800) by (nonlinear_arith)
        requires
            base >= 0,
            j >= 0,
    ;
    assert(base * (800 + j) <= base * 1200) by (nonlinear_arith)
        requires
            base >= 0,
            j <= 400,
    ;
    assert(base * (800 + j) / 1000 >= base * 800 / 1000) by (nonlinear_arith)
        requires
            base * (800 + j) >= base * 800,
            base * 800 >= 0,
    ;
    assert(base * (800 + j) / 1000 <= base * 1200 / 1000) by (nonlinear_arith)
        requires
            base * (800 + j) <= base * 1200,
            base * (800 + j) >= 0,
    ;
}

/// The time budget is strictly larger than the time allowed for the attempts
/// themselves whenever at least one attempt is allowed and the first wait is
/// positive.
pub proof fn max_elapsed_exceeds_attempt_time(p: RetryPolicy)
    requires
        p.max_retry >= 1,
        p.initial_interval_secs >= 1,
    ensures
        max_elapsed_ms_spec(p) > p.max_retry * p.per_attempt_timeout_secs * 1000,
{
    let waits = p.max_retry as nat;
    lemma_sum_monotone(p, 1, waits);
    assert(sum_of_backoff_waits(p, 0) == 0);
    assert(sum_of_backoff_waits(p, 1) == backoff_wait_ms(p, 0));
}

/// The time budget depends on the four parameters alone.
pub proof fn max_elapsed_is_deterministic(p: RetryPolicy, q: RetryPolicy)
    requires
        p.initial_interval_secs == q.initial_interval_secs,
        p.multiplier_percent == q.multiplier_percent,
        p.max_retry == q.max_retry,
        p.per_attempt_timeout_secs == q.per_attempt_timeout_secs,
    ensures
        max_elapsed_ms_spec(p) == max_elapsed_ms_spec(q),
{
    assert(p == q);
}

const WAIT_CAP: u128 = 0x4_0000_0000_0000_0000;

fn min_u128(a: u128, b: u128) -> (r: u128)
    ensures
        r == if a <= b {
            a
        } else {
            b
        },
{
    if a <= b {
        a
    } else {
        b
    }
}

/// The policy for the configured retry parameters and the time allowed per
/// attempt.
pub fn make_backoff_policy(backoff: &BackoffConfig, max_timeout_secs: u64) -> (r: RetryPolicy)
    ensures
        r == (RetryPolicy {
            initial_interval_secs: backoff.initial_interval,
            multiplier_percent: backoff.multiplier_percent,
            max_retry: backoff.max_retry,
            per_attempt_timeout_secs: max_timeout_secs,
        }),
{
    RetryPolicy {
        initial_interval_secs: backoff.initial_interval,
        multiplier_percent: backoff.multiplier_percent,
        max_retry: backoff.max_retry,
        per_attempt_timeout_secs: max_timeout_secs,
    }
}

impl RetryState {
    /// No attempt has failed yet.
    pub fn new() -> (r: RetryState)
        ensures
            r.attempt_count == 0,
            r.elapsed_ms == 0,
            r.last_error is None,
    {
        RetryState { attempt_count: 0, elapsed_ms: 0, last_error: None }
    }
}

/// Whether a failure is worth retrying.
pub fn classify(failure: FailureKind) -> (r: bool)
    ensures
        r == is_transient(failure),
{
    match failure {
        FailureKind::Timeout => true,
        FailureKind::ConnectionReset => true,
        FailureKind::ConnectionFailed => true,
        FailureKind::MalformedResponse => true,
        FailureKind::HttpStatus(s) => (500 <= s && s <= 599) || s == 429,
        _ => false,
    }
}

impl RetryPolicy {
    /// The time budget, capped at `cap`.
    fn capped_max_elapsed_ms(&self, cap: u128) -> (r: u128)
        requires
            0 < cap <= WAIT_CAP,
        ensures
            r as int == if max_elapsed_ms_spec(*self) <= cap {
                max_elapsed_ms_spec(*self)
            } else {
                cap as int
            },
    {
        let n: u32 = self.max_retry;
        let ghost p = *self;
        let a: u128 = self.max_retry as u128;
        let b: u128 = self.per_attempt_timeout_secs as u128;
        assert(a * b <= 0xffff_ffffu128 * 0xffff_ffff_ffff_ffffu128) by (nonlinear_arith)
            requires
                a <= 0xffff_ffff,
                b <= 0xffff_ffff_ffff_ffff,
        ;
        let ab: u128 = a * b;
        let t: u128 = ab * 1000;
        assert(t == p.max_retry * p.per_attempt_timeout_secs * 1000) by (nonlinear_arith)
            requires
                t == ab * 1000,
                ab == a * b,
                a == p.max_retry,
                b == p.per_attempt_timeout_secs,
        ;
        let pct = self.multiplier_percent as u128;
        let mut w: u128 = (self.initial_interval_secs as u128) * 1000;
        let mut s: u128 = 0;
        let mut k: u32 = 0;
        while k < n
            invariant
                p == *self,
                pct == p.multiplier_percent,
                0 < cap <= WAIT_CAP,
                k <= n,
                n == p.max_retry,
                w == backoff_wait_ms(p, k as nat),
                s == sum_of_backoff_waits(p, k as nat),
                s < cap,
                t == p.max_retry * p.per_attempt_timeout_secs * 1000,
            decreases n - k,
        {
            if w >= cap - s {
                proof {
                    lemma_sum_monotone(p, (k + 1) as nat, n as nat);
                }
                return cap;
            }
            s = s + w;
            assert(w * pct < 0x1_0000_0000_0000_0000_0000_0000_0000) by (nonlinear_arith)
                requires
                    w < WAIT_CAP,
                    pct < 0x1_0000_0000,
            ;
            w = w * pct / 100;
            k = k + 1;
        }
        assert(t <= 0xffff_ffffu128 * 0xffff_ffff_ffff_ffffu128 * 1000) by (nonlinear_arith)
            requires
                t == p.max_retry * p.per_attempt_timeout_secs * 1000,
                p.max_retry <= 0xffff_ffff,
                p.per_attempt_timeout_secs <= 0xffff_ffff_ffff_ffff,
        ;
        min_u128(s + t, cap)
    }

    /// The time budget in milliseconds, or `None` where it exceeds `u64::MAX`.
    pub fn max_elapsed_ms(&self) -> (r: Option<u64>)
        ensures
            match r {
                Some(v) => v == max_elapsed_ms_spec(*self),
                None => max_elapsed_ms_spec(*self) > u64::MAX,
            },
    {
        let total = self.capped_max_elapsed_ms(0x1_0000_0000_0000_0000);
        if total > 0xffff_ffff_ffff_ffff {
            None
        } else {
            Some(total as u64)
        }
    }

    /// The wait before retry number `k + 1`, capped at `cap`.
    fn capped_wait_ms(&self, k: u32, cap: u128) -> (r: u128)
        requires
            0 < cap <= WAIT_CAP,
        ensures
            r as int == if backoff_wait_ms(*self, k as nat) <= cap {
                backoff_wait_ms(*self, k as nat)
            } else {
                cap as int
            },
    {
        let ghost p = *self;
        let pct = self.multiplier_percent as u128;
        let init: u128 = (self.initial_interval_secs as u128) * 1000;
        let mut w: u128 = init;
        let mut j: u32 = 0;
        while j < k
            invariant
                p == *self,
                pct == p.multiplier_percent,
                0 < cap <= WAIT_CAP,
                j <= k,
                init == p.initial_interval_secs * 1000,
                w == backoff_wait_ms(p, j as nat),
                w < 0x1_0000_0000_0000_0000_0000_0000,
                pct < 0x1_0000_0000,
                pct < 100 ==> w <= init,
            decreases k - j,
        {
            if w >= cap && pct >= 100 {
                proof {
                    lemma_wait_monotone(p, j as nat, k as nat);
                }
                return cap;
            }
            proof {
                lemma_wait_nonneg(p, j as nat);
            }
            assert(w * pct < 0x10_0000_0000_0000_0000_0000_0000) by (nonlinear_arith)
                requires
                    (pct >= 100 && w < WAIT_CAP) || (pct < 100 && w <= init),
                    init <= 0xffff_ffff_ffff_ffff * 1000,
                    pct < 0x1_0000_0000,
                    w >= 0,
            ;
            assert(pct < 100 ==> w * pct / 100 <= w) by (nonlinear_arith)
                requires
                    w >= 0,
            ;
            w = w * pct / 100;
            j = j + 1;
        }
        min_u128(w, cap)
    }

    /// Records a failed attempt in `state` and decides whether to retry.
    /// `elapsed_ms` is the time since the operation began; `jitter` is a
    /// random draw in 0..=400 (see `jittered_ms`).
    pub fn on_failure(
        &self,
        state: &mut RetryState,
        failure: FailureKind,
        elapsed_ms: u64,
        jitter: u64,
    ) -> (d: RetryDecision)
        ensures
            final(state).attempt_count == if old(state).attempt_count < u32::MAX {
                (old(state).attempt_count + 1) as u32
            } else {
                u32::MAX
            },
            final(state).elapsed_ms == elapsed_ms,
            final(state).last_error == Some(failure),
            d == retry_decision(
                *self,
                final(state).attempt_count as nat,
                elapsed_ms as int,
                failure,
                jitter,
            ),
    {
        let attempts: u32 = if state.attempt_count < u32::MAX {
            state.attempt_count + 1
        } else {
            u32::MAX
        };
        state.attempt_count = attempts;
        state.elapsed_ms = elapsed_ms;
        state.last_error = Some(failure);
        if !classify(failure) {
            return RetryDecision::GiveUp(GiveUpReason::Fatal);
        }
        if attempts >= self.max_retry {
            return RetryDecision::GiveUp(GiveUpReason::AttemptsExhausted);
        }
        let ghost p = *self;
        let ghost base = backoff_wait_ms(p, (attempts - 1) as nat);
        let capped = self.capped_wait_ms(attempts - 1, WAIT_CAP);
        let j: u128 = if jitter > 400 {
            400
        } else {
            jitter as u128
        };
        assert(capped * (800 + j) <= WAIT_CAP * 1200) by (nonlinear_arith)
            requires
                capped <= WAIT_CAP,
                j <= 400,
        ;
        let w: u128 = capped * (800 + j) / 1000;
        proof {
            lemma_wait_nonneg(p, (attempts - 1) as nat);
            lemma_jitter_bounds(capped as int, jitter);
            lemma_jitter_bounds(base, jitter);
            assert(w == jittered_ms(capped as int, jitter));
            if base > WAIT_CAP {
                assert(base * 800 / 1000 >= WAIT_CAP * 800 / 1000) by (nonlinear_arith)
                    requires
                        base > WAIT_CAP,
                ;
            }
        }
        if w > 0xffff_ffff_ffff_ffff {
            return RetryDecision::GiveUp(GiveUpReason::TimeBudgetExhausted);
        }
        let budget = self.capped_max_elapsed_ms(WAIT_CAP);
        if (elapsed_ms as u128) + w > budget {
            return RetryDecision::GiveUp(GiveUpReason::TimeBudgetExhausted);
        }
        RetryDecision::RetryAfter(w as u64)
    }
}

} // verus!
