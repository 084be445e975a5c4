//! Retry policy for side effects.
//!
//! A policy governs the local retry of one side-effect closure before the
//! invocation either commits a result or surfaces a failure.  Delays grow
//! geometrically: attempt `n` waits `initial_delay * factor^(n-1)`, capped at
//! `max_delay` when one is set.  The factor is a fixed-point number in
//! thousandths (`1000` means a factor of one), so that the core stays in
//! integer arithmetic.

use vstd::prelude::*;
use crate::errors::{Failure, FailureVal, TerminalErr, TerminalErrVal};
use crate::journal::{OpOutcome, OpOutcomeVal};

verus! {

/// Retry policy attached to one side-effect call.
#[derive(Debug, Clone, Copy, PartialEq, Eq)]
pub struct RetryPolicy {
    /// Delay before the second attempt, in milliseconds.
    pub initial_delay_ms: u64,
    /// Geometric growth factor, in thousandths (`1000` = 1.0).
    pub factor_milli: u64,
    /// Bound on the number of closure attempts; `None` means unbounded
    /// (the orchestrator's own invocation-retry envelope still applies).
    pub max_attempts: Option<u32>,
    /// Ceiling on any single delay, in milliseconds.
    pub max_delay_ms: Option<u64>,
}

impl RetryPolicy {
    /// A policy is well formed when its factor is at least one and a
    /// configured attempt bound admits at least one attempt.
    pub open spec fn wf(self) -> bool {
        &&& self.factor_milli >= 1000
        &&& match self.max_attempts {
            Option::Some(n) => n >= 1,
            Option::None => true,
        }
    }

    /// The default policy: retry immediately, factor one, unbounded.
    pub fn new() -> (r: RetryPolicy)
        ensures
            r.wf(),
            r.initial_delay_ms == 0,
            r.factor_milli == 1000,
            r.max_attempts is None,
            r.max_delay_ms is None,
    {
        RetryPolicy {
            initial_delay_ms: 0,
            factor_milli: 1000,
            max_attempts: None,
            max_delay_ms: None,
        }
    }

    /// Sets the delay before the second attempt.
    pub fn initial_delay(self, millis: u64) -> (r: RetryPolicy)
        ensures
            r == (RetryPolicy { initial_delay_ms: millis, ..self }),
    {
        RetryPolicy { initial_delay_ms: millis, ..self }
    }

    /// Sets the growth factor, in thousandths; values below one are raised
    /// to one.
    pub fn factor_milli(self, factor: u64) -> (r: RetryPolicy)
        ensures
            r == (RetryPolicy {
                factor_milli: if factor >= 1000 { factor } else { 1000u64 },
                ..self
            }),
            r.factor_milli >= 1000,
    {
        let f: u64 = if factor >= 1000 { factor } else { 1000 };
        RetryPolicy { factor_milli: f, ..self }
    }

    /// Bounds the number of closure attempts; a bound of zero is raised to
    /// one, since the closure always runs at least once.
    pub fn max_attempts(self, n: u32) -> (r: RetryPolicy)
        ensures
            r == (RetryPolicy { max_attempts: Some(if n >= 1 { n } else { 1u32 }), ..self }),
    {
        let m: u32 = if n >= 1 { n } else { 1 };
        RetryPolicy { max_attempts: Some(m), ..self }
    }

    /// Sets the ceiling on any single delay.
    pub fn max_delay(self, millis: u64) -> (r: RetryPolicy)
        ensures
            r == (RetryPolicy { max_delay_ms: Some(millis), ..self }),
    {
        RetryPolicy { max_delay_ms: Some(millis), ..self }
    }
}

/// Applies the policy's delay ceiling to one computed delay.
pub open spec fn spec_cap_delay(p: RetryPolicy, d: u64) -> u64 {
    match p.max_delay_ms {
        Option::Some(m) => if d > m { m } else { d },
        Option::None => d,
    }
}

/// The delay that follows a delay of `d`: multiplied by the factor,
/// saturated at the largest representable duration, then capped.
pub open spec fn spec_next_delay(p: RetryPolicy, d: u64) -> u64 {
    let raw = (d * p.factor_milli) / 1000;
    let sat: u64 = if raw > u64::MAX { u64::MAX } else { raw as u64 };
    spec_cap_delay(p, sat)
}

/// The delay waited after failed attempt number `attempt` (1-based).
pub open spec fn spec_delay(p: RetryPolicy, attempt: nat) -> u64
    decreases attempt,
{
    if attempt <= 1 {
        spec_cap_delay(p, p.initial_delay_ms)
    } else {
        spec_next_delay(p, spec_delay(p, (attempt - 1) as nat))
    }
}

/// A configured attempt bound is exhausted at attempt `attempt`.
pub open spec fn spec_exhausted(p: RetryPolicy, attempt: u32) -> bool {
    match p.max_attempts {
        Option::Some(n) => attempt >= n,
        Option::None => false,
    }
}

/// Computes the delay waited after failed attempt number `attempt`.
pub fn delay_for_attempt(p: &RetryPolicy, attempt: u32) -> (r: u64)
    requires
        p.wf(),
        attempt >= 1,
    ensures
        r == spec_delay(*p, attempt as nat),
{
    let mut d: u64 = match p.max_delay_ms {
        Some(m) => if p.initial_delay_ms > m { m } else { p.initial_delay_ms },
        None => p.initial_delay_ms,
    };
    let mut a: u32 = 1;
    while a < attempt
        invariant
            1 <= a <= attempt,
            d == spec_delay(*p, a as nat),
        decreases attempt - a,
    {
        d = next_delay(p, d);
        a = a + 1;
    }
    d
}

/// Computes the delay that follows a delay of `d`.
pub fn next_delay(p: &RetryPolicy, d: u64) -> (r: u64)
    ensures
        r == spec_next_delay(*p, d),
{
    proof {
        assert((d as int) * (p.factor_milli as int) <= (u64::MAX as int) * (u64::MAX as int))
            by (nonlinear_arith)
            requires
                d <= u64::MAX,
                p.factor_milli <= u64::MAX,
        ;
    }
    let prod: u128 = (d as u128) * (p.factor_milli as u128);
    let raw: u128 = prod / 1000;
    let sat: u64 = if raw > u64::MAX as u128 {
        u64::MAX
    } else {
        #[verifier::truncate] (raw as u64)
    };
    match p.max_delay_ms {
        Some(m) => if sat > m { m } else { sat },
        None => sat,
    }
}

/// With a factor of one, every delay equals the capped initial delay: the
/// backoff is flat.
pub proof fn lemma_flat_backoff(p: RetryPolicy, attempt: nat)
    requires
        p.factor_milli == 1000,
        attempt >= 1,
    ensures
        spec_delay(p, attempt) == spec_cap_delay(p, p.initial_delay_ms),
    decreases attempt,
{
    if attempt > 1 {
        lemma_flat_backoff(p, (attempt - 1) as nat);
        let d = spec_delay(p, (attempt - 1) as nat);
        assert((d * 1000) / 1000 == d as int) by (nonlinear_arith);
    }
}

/// What `run` does after one failed closure attempt.
#[derive(Debug, Clone, PartialEq, Eq)]
pub enum RunVerdict {
    /// Record this outcome as the side effect's single journal entry and
    /// return it; the closure is not invoked again.
    Commit(OpOutcome),
    /// Sleep the given number of milliseconds, then re-invoke the closure.
    RetryAfter(u64),
}

/// The terminal outcome recorded when a retry bound is exhausted.
pub open spec fn spec_exhausted_outcome(msg: Seq<char>) -> OpOutcomeVal {
    OpOutcomeVal::Terminal(TerminalErrVal { message: msg, code: Option::None })
}

/// Decides what `run` does after closure attempt `attempt` failed with
/// `failure`.  A terminal failure commits immediately, whatever the policy
/// and the attempt number; a retriable failure retries until the bound is
/// exhausted and is then committed as a terminal outcome.
pub fn run_verdict(p: &RetryPolicy, attempt: u32, failure: Failure) -> (r: RunVerdict)
    requires
        p.wf(),
        attempt >= 1,
    ensures
        (match failure@ {
            FailureVal::Terminal(t) => r matches RunVerdict::Commit(o) && o@
                == OpOutcomeVal::Terminal(t),
            FailureVal::Retriable(m) => {
                if spec_exhausted(*p, attempt) {
                    r matches RunVerdict::Commit(o) && o@ == spec_exhausted_outcome(m)
                } else {
                    r == RunVerdict::RetryAfter(spec_delay(*p, attempt as nat))
                }
            },
        }),
{
    match failure {
        Failure::Terminal(t) => RunVerdict::Commit(OpOutcome::Terminal(t)),
        Failure::Retriable(m) => {
            let exhausted: bool = match p.max_attempts {
                Some(n) => attempt >= n,
                None => false,
            };
            if exhausted {
                RunVerdict::Commit(OpOutcome::Terminal(TerminalErr::new(m)))
            } else {
                RunVerdict::RetryAfter(delay_for_attempt(p, attempt))
            }
        },
    }
}

} // verus!
