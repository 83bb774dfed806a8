//! Exponential backoff with bounded jitter, and the classification of which
//! request outcomes are worth retrying.
//!
//! The delay before the retry numbered `attempt` (counting from zero) is
//! `clamp(min_delay * base_multiplier^attempt, min_delay, max_delay)`, with a
//! uniformly drawn jitter reducing it to somewhere in `[0, clamped]` so that
//! concurrent clients do not retry in lockstep.  The jitter draw itself is
//! random and is handed in by the caller; every function here is a pure
//! function of its arguments.
//!
//! The transport's retry-decorated client applies this policy to every JSON
//! request it dispatches; [`RetryPlan`] states the same policy for one
//! request, for retrying done at a higher level and for holding the
//! transport to its snapshot semantics.

use vstd::arithmetic::mul::{lemma_mul_basics, lemma_mul_inequality, lemma_mul_is_associative, lemma_mul_is_commutative};
use vstd::arithmetic::power::{lemma_pow0, lemma_pow1, lemma_pow_adds, lemma_pow_increases, lemma_pow_positive, pow};
use vstd::prelude::*;

use crate::config::RetryConfig;

verus! {

/// `min_delay * base_multiplier^attempt`, as a mathematical integer.
pub open spec fn raw_delay(cfg: RetryConfig, attempt: nat) -> int {
    cfg.min_delay * pow(cfg.base_multiplier as int, attempt)
}

/// The raw exponential delay clamped to `[min_delay, max_delay]`.
pub open spec fn delay_ceiling(cfg: RetryConfig, attempt: nat) -> int {
    let raw = raw_delay(cfg, attempt);
    if raw < cfg.min_delay {
        cfg.min_delay as int
    } else if raw > cfg.max_delay {
        cfg.max_delay as int
    } else {
        raw
    }
}

/// The delay once a jitter draw is folded in: uniform over `[0, ceiling]`
/// when the raw draw is uniform over `u64`.
pub open spec fn jittered_delay(cfg: RetryConfig, attempt: nat, jitter: u64) -> int {
    let c = delay_ceiling(cfg, attempt);
    if c == u64::MAX {
        jitter as int
    } else {
        jitter as int % (c + 1)
    }
}

/// Multiplying by the base takes the raw delay one attempt further.
proof fn lemma_raw_delay_step(cfg: RetryConfig, i: nat)
    ensures
        raw_delay(cfg, i + 1) == raw_delay(cfg, i) * cfg.base_multiplier,
{
    let b = cfg.base_multiplier as int;
    lemma_pow_adds(b, i, 1);
    lemma_pow1(b);
    lemma_mul_is_associative(cfg.min_delay as int, pow(b, i), b);
}

/// The raw exponential delay never decreases from one attempt to the next
/// (for a multiplier of at least one).
proof fn lemma_raw_delay_monotonic(cfg: RetryConfig, i: nat, j: nat)
    requires
        cfg.base_multiplier >= 1,
        i <= j,
    ensures
        raw_delay(cfg, i) <= raw_delay(cfg, j),
{
    let b = cfg.base_multiplier as int;
    lemma_pow_increases(cfg.base_multiplier as nat, i, j);
    lemma_mul_inequality(pow(b, i), pow(b, j), cfg.min_delay as int);
    lemma_mul_is_commutative(pow(b, i), cfg.min_delay as int);
    lemma_mul_is_commutative(pow(b, j), cfg.min_delay as int);
}

/// With a multiplier of at least one, the raw delay never falls below
/// `min_delay`.
proof fn lemma_raw_delay_at_least_min(cfg: RetryConfig, attempt: nat)
    requires
        cfg.base_multiplier >= 1,
    ensures
        raw_delay(cfg, attempt) >= cfg.min_delay,
{
    let b = cfg.base_multiplier as int;
    lemma_pow_positive(b, attempt);
    lemma_mul_inequality(1int, pow(b, attempt), cfg.min_delay as int);
    lemma_mul_is_commutative(pow(b, attempt), cfg.min_delay as int);
}

/// The clamped exponential delay for the retry numbered `attempt`, in
/// milliseconds, before jitter.
pub fn delay_ceiling_ms(cfg: &RetryConfig, attempt: u32) -> (r: u64)
    requires
        cfg.wf(),
    ensures
        r as int == delay_ceiling(*cfg, attempt as nat),
{
    let mult: u64 = cfg.base_multiplier as u64;
    let mut acc: u64 = cfg.min_delay;
    let mut i: u32 = 0;
    let mut clipped: bool = false;
    proof {
        lemma_pow0(cfg.base_multiplier as int);
    }
    while i < attempt && !clipped
        invariant
            cfg.wf(),
            i <= attempt,
            mult == cfg.base_multiplier as u64,
            acc as int == raw_delay(*cfg, i as nat) || (acc == u64::MAX && raw_delay(
                *cfg,
                i as nat,
            ) >= u64::MAX),
            clipped ==> acc > cfg.max_delay && cfg.base_multiplier >= 1,
        decreases attempt - i, (if clipped { 0int } else { 1int }),
    {
        if acc > cfg.max_delay {
            // The clamp is already known to land on max_delay; a zero
            // multiplier cannot reach this branch, which the monotonicity
            // argument after the loop relies on.
            proof {
                if cfg.base_multiplier == 0 {
                    if i == 0 {
                        lemma_pow0(0int);
                    } else {
                        let im1: nat = (i - 1) as nat;
                        lemma_pow_adds(0int, im1, 1);
                        lemma_pow1(0int);
                        assert(im1 + 1 == i as nat);
                        assert(pow(0int, i as nat) == pow(0int, im1) * pow(0int, 1));
                        lemma_mul_basics(pow(0int, im1));
                        lemma_mul_basics(cfg.min_delay as int);
                        assert(raw_delay(*cfg, i as nat) == 0);
                    }
                }
            }
            clipped = true;
        } else {
            proof {
                lemma_raw_delay_step(*cfg, i as nat);
                assert(raw_delay(*cfg, i as nat + 1) == raw_delay(*cfg, i as nat) * (mult as int));
                if acc as int == raw_delay(*cfg, i as nat) {
                    assert(raw_delay(*cfg, i as nat + 1) == acc as int * (mult as int));
                } else {
                    // Saturated accumulator: the raw delay stays at or above
                    // u64::MAX once the multiplier is at least one.
                    if mult >= 1 {
                        lemma_mul_inequality(1int, mult as int, raw_delay(*cfg, i as nat));
                        lemma_mul_is_commutative(mult as int, raw_delay(*cfg, i as nat));
                        assert(raw_delay(*cfg, i as nat + 1) >= raw_delay(*cfg, i as nat));
                    } else {
                        lemma_mul_basics(raw_delay(*cfg, i as nat));
                        assert(raw_delay(*cfg, i as nat + 1) == 0);
                    }
                }
            }
            acc = match acc.checked_mul(mult) {
                Some(v) => v,
                None => u64::MAX,
            };
            i = i + 1;
        }
    }
    proof {
        if i < attempt {
            // Exited because the accumulator cleared max_delay: the raw
            // delay at the final attempt is at least as large.
            lemma_raw_delay_monotonic(*cfg, i as nat, attempt as nat);
        }
    }
    if acc < cfg.min_delay {
        cfg.min_delay
    } else if acc > cfg.max_delay {
        cfg.max_delay
    } else {
        acc
    }
}

/// The delay, in milliseconds, to sleep before the retry numbered `attempt`
/// (counting from zero), with the caller's random draw folded in as bounded
/// jitter: the result is uniform over `[0, ceiling]` and never exceeds the
/// clamped ceiling.
pub fn next_delay(attempt: u32, cfg: &RetryConfig, jitter: u64) -> (r: u64)
    requires
        cfg.wf(),
    ensures
        r as int == jittered_delay(*cfg, attempt as nat, jitter),
        0 <= r as int <= delay_ceiling(*cfg, attempt as nat),
        cfg.base_multiplier >= 1 ==> r as int <= cfg.max_delay as int && r as int <= raw_delay(
            *cfg,
            attempt as nat,
        ),
{
    proof {
        if cfg.base_multiplier >= 1 {
            lemma_raw_delay_at_least_min(*cfg, attempt as nat);
        }
    }
    let c = delay_ceiling_ms(cfg, attempt);
    if c == u64::MAX {
        jitter
    } else {
        jitter % (c + 1)
    }
}

/// The outcome of one attempt at a request, as the retry policy sees it.
#[derive(Debug, Clone, Copy, PartialEq, Eq, Structural)]
pub enum AttemptOutcome {
    /// The request never completed: connection refused, reset, and the like.
    NetworkError,
    /// The request exceeded the connect or request timeout.
    TimedOut,
    /// The service answered with this HTTP status code.
    Status(u16),
}

/// Which outcomes are transient: network failures and timeouts, HTTP 429,
/// and HTTP 500 through 599.  Everything else, in particular every other
/// 4xx, fails fast.
pub open spec fn retryable(o: AttemptOutcome) -> bool {
    match o {
        AttemptOutcome::NetworkError => true,
        AttemptOutcome::TimedOut => true,
        AttemptOutcome::Status(s) => s == 429 || (500 <= s && s <= 599),
    }
}

/// Classify an outcome as worth retrying or not.
pub fn is_retryable(o: &AttemptOutcome) -> (r: bool)
    ensures
        r == retryable(*o),
{
    match o {
        AttemptOutcome::NetworkError => true,
        AttemptOutcome::TimedOut => true,
        AttemptOutcome::Status(s) => *s == 429 || (500 <= *s && *s <= 599),
    }
}

/// What to do after an attempt: sleep this many milliseconds and try again,
/// or stop and surface the last outcome unchanged.
#[derive(Debug, Clone, Copy, PartialEq, Eq, Structural)]
pub enum RetryDecision {
    /// Sleep for the given number of milliseconds, then send again.
    RetryAfter(u64),
    /// Stop: hand the caller the outcome of the last attempt as it stands.
    Surface,
}

/// The retry state of one request: the bounds it was begun with and the
/// number of retries already spent.  The bounds are a snapshot taken when
/// the request started; reconfiguring the transport afterwards does not
/// touch them.
#[derive(Debug, Clone, PartialEq, Eq, Structural)]
pub struct RetryPlan {
    /// The retry bounds chosen when the request was begun.
    pub retry: RetryConfig,
    /// How many retries this request has already made.
    pub retries_made: u32,
}

impl RetryPlan {
    /// A fresh plan for one request, holding its own copy of the bounds.
    pub fn new(cfg: RetryConfig) -> (p: Self)
        ensures
            p.retry == cfg,
            p.retries_made == 0,
    {
        RetryPlan { retry: cfg, retries_made: 0 }
    }

    /// Decide what one attempt's outcome means for this request: a
    /// non-retryable outcome surfaces at once; a retryable one is retried
    /// with the jittered exponential delay until the budget is spent, after
    /// which the last outcome surfaces unchanged.
    pub fn decide(&mut self, outcome: &AttemptOutcome, jitter: u64) -> (d: RetryDecision)
        requires
            old(self).retry.wf(),
        ensures
            final(self).retry == old(self).retry,
            old(self).retries_made <= old(self).retry.max_retries ==> final(self).retries_made
                <= final(self).retry.max_retries,
            !retryable(*outcome) ==> d == RetryDecision::Surface && *final(self) == *old(self),
            retryable(*outcome) && old(self).retries_made >= old(self).retry.max_retries ==> d
                == RetryDecision::Surface && *final(self) == *old(self),
            retryable(*outcome) && old(self).retries_made < old(self).retry.max_retries ==> {
                &&& final(self).retry == old(self).retry
                &&& final(self).retries_made == old(self).retries_made + 1
                &&& d == RetryDecision::RetryAfter(
                    jittered_delay(old(self).retry, old(self).retries_made as nat, jitter) as u64,
                )
            },
    {
        if !is_retryable(outcome) {
            return RetryDecision::Surface;
        }
        if self.retries_made >= self.retry.max_retries {
            return RetryDecision::Surface;
        }
        let delay = next_delay(self.retries_made, &self.retry, jitter);
        self.retries_made = self.retries_made + 1;
        RetryDecision::RetryAfter(delay)
    }
}

/// Law: for every attempt within the retry budget, the jittered delay lies
/// within `[0, min(max_delay, min_delay * base_multiplier^attempt)]`.
///
/// A multiplier of zero is excluded: the clamp would raise the delay back to
/// `min_delay`, above the raw exponential value of zero.
pub proof fn lemma_next_delay_within_bounds(cfg: RetryConfig, attempt: u32, jitter: u64)
    requires
        cfg.wf(),
        cfg.base_multiplier >= 1,
        attempt < cfg.max_retries,
    ensures
        0 <= jittered_delay(cfg, attempt as nat, jitter),
        jittered_delay(cfg, attempt as nat, jitter) <= cfg.max_delay as int,
        jittered_delay(cfg, attempt as nat, jitter) <= raw_delay(cfg, attempt as nat),
{
    lemma_raw_delay_at_least_min(cfg, attempt as nat);
    let c = delay_ceiling(cfg, attempt as nat);
    assert(c <= cfg.max_delay && c <= raw_delay(cfg, attempt as nat));
    if c != u64::MAX {
        assert(0 <= jitter as int % (c + 1) < c + 1) by {
            vstd::arithmetic::div_mod::lemma_mod_bound(jitter as int, c + 1);
        }
    }
}

} // verus!
