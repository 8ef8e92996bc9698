//! Retry orchestrator: drives the attempt loop for one target through an
//! injected transport capability, owns the backoff state, and produces
//! the final outcome.
//!
//! Each attempt's result is classified; on a retryable result the
//! orchestrator sleeps for the current backoff delay, multiplies the
//! delay by the configured factor, counts the attempt, and loops —
//! otherwise the result is returned as final. The loop makes at most the
//! configured number of attempts; the last attempt's result is returned
//! unchanged whatever its classification, with no distinct exhaustion
//! error synthesized.

use vstd::prelude::*;

use crate::classify::{classify, spec_classify};
use crate::model::{AttemptResult, RequestTarget, RetryDecision};

verus! {

/// Configuration of one invocation: the attempt limit, the initial
/// backoff delay, and the factor by which the delay grows after each
/// retry. The defaults are 3 attempts, 500 ms, and doubling.
#[derive(Clone, Copy, Debug, PartialEq, Eq, Structural)]
pub struct RetryConfig {
    /// Total attempts allowed, the first one included.
    pub max_retries: u64,
    /// The delay slept before the second attempt, in milliseconds.
    pub initial_delay_ms: u64,
    /// The factor applied to the delay after each retry.
    pub backoff_multiplier: u64,
}

/// The backoff delay that follows `k` retries: the initial delay
/// multiplied `k` times by the backoff factor.
pub open spec fn delay_after_retries(cfg: RetryConfig, k: nat) -> nat
    decreases k,
{
    if k == 0 {
        cfg.initial_delay_ms as nat
    } else {
        delay_after_retries(cfg, (k - 1) as nat) * (cfg.backoff_multiplier as nat)
    }
}

impl RetryConfig {
    /// A usable configuration: at least one attempt, a positive initial
    /// delay, a growth factor of at least two, and backoff delays that
    /// stay representable up to the last attempt.
    pub open spec fn wf(self) -> bool {
        &&& self.max_retries >= 1
        &&& self.initial_delay_ms >= 1
        &&& self.backoff_multiplier >= 2
        &&& delay_after_retries(self, (self.max_retries - 1) as nat) <= u64::MAX
    }

    /// Decides whether this configuration is usable, so that an
    /// unverified caller can test it before handing it to `execute`.
    pub fn check_wf(&self) -> (ok: bool)
        ensures
            ok == self.wf(),
    {
        if self.max_retries < 1 || self.initial_delay_ms < 1 || self.backoff_multiplier < 2 {
            return false;
        }
        let last: u64 = self.max_retries - 1;
        let mut delay: u128 = self.initial_delay_ms as u128;
        let mut k: u64 = 0;
        while k < last
            invariant
                self.max_retries >= 1,
                self.initial_delay_ms >= 1,
                self.backoff_multiplier >= 2,
                last == self.max_retries - 1,
                k <= last,
                delay == delay_after_retries(*self, k as nat),
                delay <= u64::MAX,
            decreases last - k,
        {
            proof {
                assert(delay * (self.backoff_multiplier as u128) <= (u64::MAX as int) * (
                u64::MAX as int)) by (nonlinear_arith)
                    requires
                        0 <= delay <= u64::MAX,
                        0 <= self.backoff_multiplier <= u64::MAX,
                ;
            }
            delay = delay * (self.backoff_multiplier as u128);
            k = k + 1;
            if delay > u64::MAX as u128 {
                proof {
                    lemma_delay_monotone(*self, k as nat, (self.max_retries - 1) as nat);
                }
                return false;
            }
        }
        true
    }
}

impl Default for RetryConfig {
    /// The defaults: 3 attempts, 500 ms initial delay, doubling.
    fn default() -> (cfg: RetryConfig)
        ensures
            cfg.max_retries == 3,
            cfg.initial_delay_ms == 500,
            cfg.backoff_multiplier == 2,
            cfg.wf(),
    {
        let cfg = RetryConfig { max_retries: 3, initial_delay_ms: 500, backoff_multiplier: 2 };
        proof {
            assert(delay_after_retries(cfg, 0) == 500);
            assert(delay_after_retries(cfg, 1) == 1000);
            assert(delay_after_retries(cfg, 2) == 2000);
        }
        cfg
    }
}

/// The backoff delay never shrinks as retries accumulate, as long as the
/// growth factor is at least one.
pub proof fn lemma_delay_monotone(cfg: RetryConfig, k1: nat, k2: nat)
    requires
        cfg.backoff_multiplier >= 1,
        k1 <= k2,
    ensures
        delay_after_retries(cfg, k1) <= delay_after_retries(cfg, k2),
    decreases k2,
{
    if k1 < k2 {
        lemma_delay_monotone(cfg, k1, (k2 - 1) as nat);
        assert(delay_after_retries(cfg, (k2 - 1) as nat) * cfg.backoff_multiplier
            >= delay_after_retries(cfg, (k2 - 1) as nat)) by (nonlinear_arith)
            requires
                delay_after_retries(cfg, (k2 - 1) as nat) >= 0,
                cfg.backoff_multiplier >= 1,
        ;
    }
}

/// With a positive initial delay and a growth factor of at least one, the
/// backoff delay stays positive however many retries accumulate.
pub proof fn lemma_delay_positive(cfg: RetryConfig, k: nat)
    requires
        cfg.initial_delay_ms >= 1,
        cfg.backoff_multiplier >= 1,
    ensures
        delay_after_retries(cfg, k) >= 1,
    decreases k,
{
    if k > 0 {
        lemma_delay_positive(cfg, (k - 1) as nat);
        assert(delay_after_retries(cfg, (k - 1) as nat) * cfg.backoff_multiplier >= 1)
            by (nonlinear_arith)
            requires
                delay_after_retries(cfg, (k - 1) as nat) >= 1,
                cfg.backoff_multiplier >= 1,
        ;
    }
}

/// Law: each retry multiplies the backoff delay by the configured factor,
/// exactly — so with the default factor of two it strictly doubles — and
/// the delay strictly grows, never resetting mid-invocation.
pub proof fn lemma_backoff_strictly_grows(cfg: RetryConfig, k: nat)
    requires
        cfg.initial_delay_ms >= 1,
        cfg.backoff_multiplier >= 2,
    ensures
        delay_after_retries(cfg, k + 1) == delay_after_retries(cfg, k) * cfg.backoff_multiplier,
        delay_after_retries(cfg, k) < delay_after_retries(cfg, k + 1),
{
    lemma_delay_positive(cfg, k);
    assert(delay_after_retries(cfg, k) * cfg.backoff_multiplier > delay_after_retries(cfg, k))
        by (nonlinear_arith)
        requires
            delay_after_retries(cfg, k) >= 1,
            cfg.backoff_multiplier >= 2,
    ;
}

/// Mutable state of one invocation: created when the invocation starts,
/// touched only between attempts, destroyed when the invocation ends.
pub struct BackoffState {
    /// The number of the attempt most recently made, starting at 1.
    pub attempt_number: u64,
    /// The delay to sleep before the next attempt, in milliseconds.
    pub current_delay_ms: u64,
}

impl BackoffState {
    /// Fresh state at the start of an invocation: attempt number 1 and
    /// the configured initial delay.
    pub fn new(cfg: &RetryConfig) -> (s: BackoffState)
        ensures
            s.attempt_number == 1,
            s.current_delay_ms == cfg.initial_delay_ms,
    {
        BackoffState { attempt_number: 1, current_delay_ms: cfg.initial_delay_ms }
    }

    /// Steps the state between attempts: the attempt counter goes up by
    /// one and the delay is multiplied by the backoff factor — it is
    /// never reset or shrunk mid-invocation.
    pub fn advance(&mut self, cfg: &RetryConfig)
        requires
            old(self).attempt_number < u64::MAX,
            old(self).current_delay_ms * cfg.backoff_multiplier <= u64::MAX,
        ensures
            final(self).attempt_number == old(self).attempt_number + 1,
            final(self).current_delay_ms == old(self).current_delay_ms * cfg.backoff_multiplier,
    {
        self.attempt_number = self.attempt_number + 1;
        self.current_delay_ms = self.current_delay_ms * cfg.backoff_multiplier;
    }
}

/// The injected HTTP transport capability. An implementation performs one
/// blocking HTTP GET per `perform` call and reads the outcome — the
/// status code of a response, or the direct signals and cause chain of a
/// failure — into plain values; `sleep` blocks the calling thread for a
/// backoff delay. Implementations live outside the library (a real HTTP
/// client, or a scripted double in tests) and may log each call.
pub trait Transport {
    /// Performs one blocking HTTP GET against the target and reports the
    /// result of that single attempt.
    fn perform(&mut self, target: &RequestTarget) -> AttemptResult;

    /// Blocks the calling thread for the given backoff delay.
    fn sleep(&mut self, delay_ms: u64);
}

/// The final result of one invocation: the result of the last attempt
/// made, returned unchanged, and how many attempts were made. A result
/// still classified retryable is returned as-is when the attempt budget
/// runs out; exhaustion is not reported as a distinct error.
pub struct Outcome {
    pub final_result: AttemptResult,
    pub attempts: u64,
}

/// Drives the attempt loop for one target: performs a request through
/// the transport, classifies the result, and on a retryable result —
/// while attempts remain — sleeps for the current backoff delay, grows
/// the delay, and tries again.
///
/// At most `cfg.max_retries` attempts are made, so at most
/// `cfg.max_retries - 1` sleeps occur. Any outcome returned before the
/// budget is exhausted is one the classifier marked terminal; the last
/// attempt's result is returned unchanged whatever its classification.
#[verifier::loop_isolation(false)]
pub fn execute<T: Transport>(
    target: &RequestTarget,
    transport: &mut T,
    cfg: &RetryConfig,
) -> (outcome: Outcome)
    requires
        cfg.wf(),
    ensures
        1 <= outcome.attempts <= cfg.max_retries,
        outcome.attempts < cfg.max_retries ==> spec_classify(outcome.final_result) is Terminal,
{
    let mut state = BackoffState::new(cfg);
    loop
        invariant
            1 <= state.attempt_number <= cfg.max_retries,
            state.current_delay_ms == delay_after_retries(
                *cfg,
                (state.attempt_number - 1) as nat,
            ),
        decreases cfg.max_retries - state.attempt_number,
    {
        let result = transport.perform(target);
        let decision = classify(&result);
        if decision == RetryDecision::Retry && state.attempt_number < cfg.max_retries {
            transport.sleep(state.current_delay_ms);
            proof {
                lemma_delay_monotone(
                    *cfg,
                    state.attempt_number as nat,
                    (cfg.max_retries - 1) as nat,
                );
                assert(delay_after_retries(*cfg, state.attempt_number as nat)
                    == delay_after_retries(*cfg, (state.attempt_number - 1) as nat)
                    * cfg.backoff_multiplier);
            }
            state.advance(cfg);
        } else {
            return Outcome { final_result: result, attempts: state.attempt_number };
        }
    }
}

} // verus!
