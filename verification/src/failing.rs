//! A virtual object whose handlers fail in controlled ways: terminal calls,
//! eventually-successful retries, and side effects under retry policies.
//!
//! The service-level attempt counters live outside any invocation: the
//! orchestrator's whole-invocation retries observe them across attempts,
//! which is exactly what the handlers exercise.

use vstd::prelude::*;
use crate::context::{InvocationCtx, RunEnter};
use crate::dispatch::{Concurrency, DispatchOutput, HandlerDescriptor, Invocation,
    InvocationOutcome, ServiceDescriptor, ServiceKind, outcome_of, output_from};
use crate::errors::{Failure, FailureVal, Interrupt, InterruptVal, TerminalErr, TerminalErrVal};
use crate::journal::{JournalEntryVal, OpOutcome, OpOutcomeVal};
use crate::payload::{Payload, PayloadVal};
use crate::retry::{run_verdict, spec_exhausted_outcome, lemma_flat_backoff, RetryPolicy,
    RunVerdict};
use crate::state::StateStore;
use crate::variants::ObjectContext;

verus! {

/// Sixteen to the power `e`.
pub open spec fn pow16(e: int) -> int
    decreases e,
{
    if e <= 0 {
        1
    } else {
        16 * pow16(e - 1)
    }
}

/// Powers of sixteen are positive.
pub proof fn lemma_pow16_pos(e: int)
    ensures
        pow16(e) >= 1,
    decreases e,
{
    if e > 0 {
        lemma_pow16_pos(e - 1);
    }
}

/// The lower-case hexadecimal digit of a value below sixteen.
pub open spec fn hex_digit(d: int) -> char {
    if d == 0 { '0' }
    else if d == 1 { '1' }
    else if d == 2 { '2' }
    else if d == 3 { '3' }
    else if d == 4 { '4' }
    else if d == 5 { '5' }
    else if d == 6 { '6' }
    else if d == 7 { '7' }
    else if d == 8 { '8' }
    else if d == 9 { '9' }
    else if d == 10 { 'a' }
    else if d == 11 { 'b' }
    else if d == 12 { 'c' }
    else if d == 13 { 'd' }
    else if d == 14 { 'e' }
    else { 'f' }
}

/// The sixteen hexadecimal digits of a machine word, most significant first.
pub open spec fn spec_hex16(n: u64) -> Seq<char> {
    Seq::new(16, |i: int| hex_digit(((n as int) / pow16(15 - i)) % 16))
}

/// One hexadecimal digit as a string slice.
fn hex_part(d: u64) -> (r: &'static str)
    requires
        d < 16,
    ensures
        r@ =~= seq![hex_digit(d as int)],
{
    proof {
        reveal_strlit("0");
        reveal_strlit("1");
        reveal_strlit("2");
        reveal_strlit("3");
        reveal_strlit("4");
        reveal_strlit("5");
        reveal_strlit("6");
        reveal_strlit("7");
        reveal_strlit("8");
        reveal_strlit("9");
        reveal_strlit("a");
        reveal_strlit("b");
        reveal_strlit("c");
        reveal_strlit("d");
        reveal_strlit("e");
        reveal_strlit("f");
    }
    if d == 0 { "0" }
    else if d == 1 { "1" }
    else if d == 2 { "2" }
    else if d == 3 { "3" }
    else if d == 4 { "4" }
    else if d == 5 { "5" }
    else if d == 6 { "6" }
    else if d == 7 { "7" }
    else if d == 8 { "8" }
    else if d == 9 { "9" }
    else if d == 10 { "a" }
    else if d == 11 { "b" }
    else if d == 12 { "c" }
    else if d == 13 { "d" }
    else if d == 14 { "e" }
    else { "f" }
}

/// Renders a machine word as sixteen lower-case hexadecimal digits; used to
/// derive an instance key from a deterministic random draw.
pub fn hex_string_of(n: u64) -> (r: String)
    ensures
        r@ == spec_hex16(n),
{
    let mut s = String::new();
    let mut p: u64 = 0x1000000000000000;
    let mut i: usize = 0;
    proof {
        reveal_with_fuel(pow16, 17);
        assert(p as int == pow16(15));
    }
    while i < 16
        invariant
            i <= 16,
            s@.len() == i,
            forall|j: int| 0 <= j < i ==> s@[j] == hex_digit(((n as int) / pow16(15 - j)) % 16),
            i < 16 ==> p as int == pow16(15 - i),
        decreases 16 - i,
    {
        proof {
            lemma_pow16_pos(15 - i);
        }
        let d: u64 = (n / p) % 16;
        s.append(hex_part(d));
        if i < 15 {
            proof {
                assert(pow16(15 - i) == 16 * pow16(14 - i));
                lemma_pow16_pos(14 - i);
            }
            p = p / 16;
        }
        i = i + 1;
    }
    proof {
        assert(s@ =~= spec_hex16(n));
    }
    s
}

/// Attempt counters shared by every invocation of the failing object.  The
/// runtime shell guards them with whatever synchronization its concurrency
/// needs; per-invocation state never lives here.
pub struct FailingState {
    pub eventual_success_calls: i32,
    pub eventual_success_side_effects: i32,
    pub eventual_failure_side_effects: i32,
}

impl FailingState {
    /// All counters at zero.
    pub fn new() -> (r: FailingState)
        ensures
            r.eventual_success_calls == 0,
            r.eventual_success_side_effects == 0,
            r.eventual_failure_side_effects == 0,
    {
        FailingState {
            eventual_success_calls: 0,
            eventual_success_side_effects: 0,
            eventual_failure_side_effects: 0,
        }
    }
}

/// Fails terminally with the given message, touching nothing.
pub fn terminally_failing_call(ctx: &mut ObjectContext, error_message: String) -> (r: Result<
    Payload,
    Interrupt,
>)
    requires
        old(ctx).ctx().wf(),
    ensures
        *final(ctx) == *old(ctx),
        r matches Err(e) && e@ == InterruptVal::Fail(FailureVal::Terminal(TerminalErrVal {
            message: error_message@,
            code: None,
        })),
{
    Err(Interrupt::Fail(Failure::terminal(error_message)))
}

/// Calls `terminallyFailingCall` on a fresh instance whose key is derived
/// from a deterministic random draw.  The call is expected to end terminally:
/// its terminal outcome propagates; a success outcome would be the
/// defensive-only fallthrough and is answered with a terminal error of its
/// own rather than a panic.
pub fn call_terminally_failing_call(ctx: &mut ObjectContext, error_message: String) -> (r: Result<
    Payload,
    Interrupt,
>)
    requires
        old(ctx).ctx().wf(),
        old(ctx).ctx().pending_call is None,
    ensures
        final(ctx).ctx().wf(),
        old(ctx).ctx().fresh() ==> {
            &&& (r matches Err(e) && e@ is Suspend)
            &&& final(ctx).ctx().pending_call matches Some(c) && c@.service == "Failing"@
                && c@.handler == "terminallyFailingCall"@ && c@.key == Option::Some(
                spec_hex16(InvocationCtx::spec_mix(old(ctx).ctx().rand_seed)),
            ) && c@.input == PayloadVal::Text(error_message@)
        },
        (!old(ctx).ctx().poisoned && old(ctx).ctx().replaying() && old(ctx).ctx().next_entry()
            is Random && old(ctx).ctx().pos + 1 < old(ctx).ctx().replay@.len()) ==> (match old(
            ctx,
        ).ctx().replay@[old(ctx).ctx().pos + 1]@ {
            JournalEntryVal::CallResult { outcome } => match outcome {
                OpOutcomeVal::Terminal(t) => r matches Err(e) && e@ == InterruptVal::Fail(
                    FailureVal::Terminal(t),
                ),
                OpOutcomeVal::Success(p) => r matches Err(e) && e@ matches InterruptVal::Fail(
                    FailureVal::Terminal(u),
                ),
            },
            _ => r matches Err(e) && e@ is NonDeterminism,
        }),
{
    let drawn = match ctx.rand_u64() {
        Ok(v) => v,
        Err(e) => {
            return Err(e);
        },
    };
    let key = hex_string_of(drawn);
    let res = ctx.call(
        String::from_str("Failing"),
        Some(key),
        String::from_str("terminallyFailingCall"),
        Payload::Text(error_message),
    );
    match res {
        Ok(_) => Err(Interrupt::Fail(Failure::terminal(
            String::from_str("the called handler was expected to end terminally"),
        ))),
        Err(e) => Err(e),
    }
}

/// Fails with a retriable error until the fourth whole-invocation attempt,
/// then succeeds with the attempt count and resets the counter.  The
/// orchestrator drives these retries; no side-effect policy is involved.
pub fn failing_call_with_eventual_success(state: &mut FailingState) -> (r: Result<i32, Interrupt>)
    requires
        0 <= old(state).eventual_success_calls < i32::MAX,
    ensures
        old(state).eventual_success_calls + 1 >= 4 ==> {
            &&& (r matches Ok(v) && v == old(state).eventual_success_calls + 1)
            &&& final(state).eventual_success_calls == 0
        },
        old(state).eventual_success_calls + 1 < 4 ==> {
            &&& (r matches Err(e) && e@ matches InterruptVal::Fail(FailureVal::Retriable(m)))
            &&& final(state).eventual_success_calls == old(state).eventual_success_calls + 1
        },
        final(state).eventual_success_side_effects == old(state).eventual_success_side_effects,
        final(state).eventual_failure_side_effects == old(state).eventual_failure_side_effects,
{
    let current_attempt = state.eventual_success_calls + 1;
    state.eventual_success_calls = current_attempt;
    if current_attempt >= 4 {
        state.eventual_success_calls = 0;
        Ok(current_attempt)
    } else {
        Err(Interrupt::Fail(Failure::retriable(String::from_str("failed at this attempt"))))
    }
}

/// Runs a side effect whose closure fails terminally at once.  The terminal
/// failure is committed and propagated without a single retry, whatever any
/// policy would say; a recorded success outcome is the defensive-only
/// fallthrough, answered with a terminal error.
pub fn terminally_failing_side_effect(ctx: &mut ObjectContext, error_message: String) -> (r:
    Result<Payload, Interrupt>)
    requires
        old(ctx).ctx().wf(),
    ensures
        final(ctx).ctx().wf(),
        old(ctx).ctx().fresh() ==> {
            &&& (r matches Err(e) && e@ == InterruptVal::Fail(FailureVal::Terminal(
                TerminalErrVal { message: error_message@, code: None },
            )))
            &&& final(ctx).ctx().log() == old(ctx).ctx().log().push(
                JournalEntryVal::RunResult {
                    outcome: OpOutcomeVal::Terminal(TerminalErrVal {
                        message: error_message@,
                        code: None,
                    }),
                },
            )
            &&& final(ctx).ctx().sleeps == old(ctx).ctx().sleeps
            &&& final(ctx).ctx().store == old(ctx).ctx().store
        },
        (!old(ctx).ctx().poisoned && old(ctx).ctx().replaying()) ==> (match old(
            ctx,
        ).ctx().next_entry() {
            JournalEntryVal::RunResult { outcome } => {
                &&& (match outcome {
                    OpOutcomeVal::Terminal(t) => r matches Err(e) && e@ == InterruptVal::Fail(
                        FailureVal::Terminal(t),
                    ),
                    OpOutcomeVal::Success(p) => r matches Err(e) && e@
                        matches InterruptVal::Fail(FailureVal::Terminal(u)),
                })
                &&& final(ctx).ctx().sleeps == old(ctx).ctx().sleeps
            },
            _ => r matches Err(e) && e@ is NonDeterminism,
        }),
{
    match ctx.run_enter() {
        RunEnter::Recorded(OpOutcome::Terminal(t)) => Err(Interrupt::Fail(Failure::Terminal(t))),
        RunEnter::Recorded(OpOutcome::Success(_)) => Err(Interrupt::Fail(Failure::terminal(
            String::from_str("the side effect was expected to fail terminally"),
        ))),
        RunEnter::Stop(e) => Err(e),
        RunEnter::Fresh => {
            let policy = RetryPolicy::new();
            let verdict = run_verdict(&policy, 1, Failure::terminal(error_message));
            match verdict {
                RunVerdict::Commit(o) => {
                    let committed = ctx.run_commit(o);
                    match committed {
                        OpOutcome::Terminal(t) => Err(Interrupt::Fail(Failure::Terminal(t))),
                        OpOutcome::Success(_) => Err(Interrupt::Fail(Failure::terminal(
                            String::from_str("the side effect was expected to fail terminally"),
                        ))),
                    }
                },
                RunVerdict::RetryAfter(_) => Err(Interrupt::Fail(Failure::terminal(
                    String::from_str("a terminal failure must never be retried"),
                ))),
            }
        },
    }
}

/// Runs a side effect that fails with retriable errors until the counter
/// reaches `minimum_attempts`, under a flat ten-millisecond retry policy with
/// no attempt bound.  On fresh execution the closure runs exactly
/// `max(1, minimum_attempts - counter)` times, with a ten-millisecond wait
/// between attempts, the success is committed once, and the counter resets;
/// on replay the recorded outcome is returned and the closure never runs.
#[verifier::loop_isolation(false)]
pub fn side_effect_succeeds_after_given_attempts(
    ctx: &mut ObjectContext,
    state: &mut FailingState,
    minimum_attempts: i32,
) -> (r: Result<i32, Interrupt>)
    requires
        old(ctx).ctx().wf(),
        0 <= old(state).eventual_success_side_effects < i32::MAX,
    ensures
        final(ctx).ctx().wf(),
        old(ctx).ctx().fresh() ==> ({
            let c0 = old(state).eventual_success_side_effects as int;
            let v = if c0 + 1 >= minimum_attempts { c0 + 1 } else { minimum_attempts as int };
            &&& (r matches Ok(x) && x as int == v)
            &&& final(state).eventual_success_side_effects == 0
            &&& final(ctx).ctx().log() == old(ctx).ctx().log().push(
                JournalEntryVal::RunResult {
                    outcome: OpOutcomeVal::Success(PayloadVal::Int(v)),
                },
            )
            &&& final(ctx).ctx().sleeps@.len() == old(ctx).ctx().sleeps@.len() + (v - c0 - 1)
            &&& (forall|j: int|
                old(ctx).ctx().sleeps@.len() <= j < final(ctx).ctx().sleeps@.len()
                    ==> final(ctx).ctx().sleeps@[j] == 10)
            &&& final(ctx).ctx().store == old(ctx).ctx().store
        }),
        (!old(ctx).ctx().poisoned && old(ctx).ctx().replaying()) ==> (match old(
            ctx,
        ).ctx().next_entry() {
            JournalEntryVal::RunResult { outcome } => {
                &&& *final(state) == *old(state)
                &&& final(ctx).ctx().sleeps == old(ctx).ctx().sleeps
                &&& (match outcome {
                    OpOutcomeVal::Success(PayloadVal::Int(v)) => {
                        if i32::MIN <= v <= i32::MAX {
                            r matches Ok(x) && x as int == v
                        } else {
                            r matches Err(e) && e@ matches InterruptVal::Fail(
                                FailureVal::Terminal(t),
                            )
                        }
                    },
                    OpOutcomeVal::Success(p) => r matches Err(e) && e@
                        matches InterruptVal::Fail(FailureVal::Terminal(t)),
                    OpOutcomeVal::Terminal(t) => r matches Err(e) && e@ == InterruptVal::Fail(
                        FailureVal::Terminal(t),
                    ),
                })
            },
            _ => r matches Err(e) && e@ is NonDeterminism,
        }),
{
    match ctx.run_enter() {
        RunEnter::Recorded(OpOutcome::Success(Payload::Int(v))) => {
            if v >= i32::MIN as i64 && v <= i32::MAX as i64 {
                return Ok(v as i32);
            }
            return Err(Interrupt::Fail(Failure::terminal(
                String::from_str("recorded side-effect value out of range"),
            )));
        },
        RunEnter::Recorded(OpOutcome::Success(_)) => {
            return Err(Interrupt::Fail(Failure::terminal(
                String::from_str("recorded side-effect value is not an integer"),
            )));
        },
        RunEnter::Recorded(OpOutcome::Terminal(t)) => {
            return Err(Interrupt::Fail(Failure::Terminal(t)));
        },
        RunEnter::Stop(e) => {
            return Err(e);
        },
        RunEnter::Fresh => {},
    }
    let policy = RetryPolicy::new().initial_delay(10);
    let ghost ctx0 = ctx.ctx();
    let ghost c0 = state.eventual_success_side_effects as int;
    let mut attempt: u32 = 1;
    loop
        invariant
            ctx.ctx().wf(),
            ctx.ctx().fresh(),
            policy.wf(),
            policy == (RetryPolicy {
                initial_delay_ms: 10u64,
                factor_milli: 1000u64,
                max_attempts: Option::<u32>::None,
                max_delay_ms: Option::<u64>::None,
            }),
            1 <= attempt,
            c0 + attempt <= i32::MAX + 1,
            attempt > 1 ==> c0 + attempt - 1 < minimum_attempts,
            state.eventual_success_side_effects as int == c0 + attempt - 1,
            state.eventual_success_side_effects < i32::MAX,
            0 <= c0,
            ctx.ctx().log() == ctx0.log(),
            ctx.ctx().store == ctx0.store,
            ctx.ctx().touched == ctx0.touched,
            ctx.ctx().replay == ctx0.replay,
            ctx.ctx().pos == ctx0.pos,
            ctx.ctx().rand_seed == ctx0.rand_seed,
            ctx.ctx().pending_call == ctx0.pending_call,
            ctx.ctx().outbox == ctx0.outbox,
            ctx.ctx().appended == ctx0.appended,
            ctx.ctx().sleeps@.len() == ctx0.sleeps@.len() + attempt - 1,
            forall|j: int|
                ctx0.sleeps@.len() <= j < ctx.ctx().sleeps@.len() ==> ctx.ctx().sleeps@[j] == 10,
            ctx.ctx().sleeps@.take(ctx0.sleeps@.len() as int) == ctx0.sleeps@,
        decreases minimum_attempts - state.eventual_success_side_effects,
    {
        let current = state.eventual_success_side_effects + 1;
        state.eventual_success_side_effects = current;
        if current >= minimum_attempts {
            state.eventual_success_side_effects = 0;
            let committed = ctx.run_commit(OpOutcome::Success(Payload::Int(current as i64)));
            return Ok(current);
        }
        let verdict = run_verdict(
            &policy,
            attempt,
            Failure::retriable(String::from_str("not yet at the required attempt")),
        );
        match verdict {
            RunVerdict::Commit(o) => {
                let committed = ctx.run_commit(o);
                match committed {
                    OpOutcome::Terminal(t) => {
                        return Err(Interrupt::Fail(Failure::Terminal(t)));
                    },
                    OpOutcome::Success(_) => {
                        return Err(Interrupt::Fail(Failure::terminal(
                            String::from_str("unexpected commit of an unfinished side effect"),
                        )));
                    },
                }
            },
            RunVerdict::RetryAfter(d) => {
                proof {
                    lemma_flat_backoff(policy, attempt as nat);
                }
                ctx.request_wait(d);
                proof {
                    assert(ctx.ctx().sleeps@.take(ctx0.sleeps@.len() as int) =~= ctx0.sleeps@);
                }
                attempt = attempt + 1;
            },
        }
    }
}

/// Runs a side effect whose closure always fails with a retriable error,
/// under a flat ten-millisecond policy bounded by `max_attempts`.  On fresh
/// execution the closure runs exactly `max_attempts` times — not more — the
/// exhausted retry is committed as a terminal outcome, and the handler
/// reports the attempt counter; on replay the counter is untouched.
#[verifier::loop_isolation(false)]
pub fn side_effect_fails_after_given_attempts(
    ctx: &mut ObjectContext,
    state: &mut FailingState,
    max_attempts: u32,
) -> (r: Result<i32, Interrupt>)
    requires
        old(ctx).ctx().wf(),
        max_attempts >= 1,
        0 <= old(state).eventual_failure_side_effects,
        old(state).eventual_failure_side_effects + max_attempts <= i32::MAX,
    ensures
        final(ctx).ctx().wf(),
        old(ctx).ctx().fresh() ==> ({
            let c0 = old(state).eventual_failure_side_effects as int;
            &&& (r matches Ok(x) && x as int == c0 + max_attempts)
            &&& final(state).eventual_failure_side_effects as int == c0 + max_attempts
            &&& final(ctx).ctx().log() == old(ctx).ctx().log().push(
                JournalEntryVal::RunResult {
                    outcome: spec_exhausted_outcome("failed at this attempt"@),
                },
            )
            &&& final(ctx).ctx().sleeps@.len() == old(ctx).ctx().sleeps@.len() + (
            max_attempts - 1)
            &&& (forall|j: int|
                old(ctx).ctx().sleeps@.len() <= j < final(ctx).ctx().sleeps@.len()
                    ==> final(ctx).ctx().sleeps@[j] == 10)
        }),
        (!old(ctx).ctx().poisoned && old(ctx).ctx().replaying()) ==> (match old(
            ctx,
        ).ctx().next_entry() {
            JournalEntryVal::RunResult { outcome } => {
                &&& *final(state) == *old(state)
                &&& final(ctx).ctx().sleeps == old(ctx).ctx().sleeps
                &&& (match outcome {
                    OpOutcomeVal::Terminal(t) => r matches Ok(x) && x == old(
                        state,
                    ).eventual_failure_side_effects,
                    OpOutcomeVal::Success(p) => r matches Err(e) && e@
                        matches InterruptVal::Fail(FailureVal::Terminal(u)),
                })
            },
            _ => r matches Err(e) && e@ is NonDeterminism,
        }),
{
    match ctx.run_enter() {
        RunEnter::Recorded(OpOutcome::Terminal(_)) => {
            return Ok(state.eventual_failure_side_effects);
        },
        RunEnter::Recorded(OpOutcome::Success(_)) => {
            return Err(Interrupt::Fail(Failure::terminal(
                String::from_str("the side effect was expected to fail"),
            )));
        },
        RunEnter::Stop(e) => {
            return Err(e);
        },
        RunEnter::Fresh => {},
    }
    let policy = RetryPolicy::new().initial_delay(10).max_attempts(max_attempts);
    let ghost ctx0 = ctx.ctx();
    let ghost c0 = state.eventual_failure_side_effects as int;
    let mut attempt: u32 = 1;
    loop
        invariant
            ctx.ctx().wf(),
            ctx.ctx().fresh(),
            policy.wf(),
            max_attempts >= 1,
            policy == (RetryPolicy {
                initial_delay_ms: 10u64,
                factor_milli: 1000u64,
                max_attempts: Option::Some(max_attempts),
                max_delay_ms: Option::<u64>::None,
            }),
            1 <= attempt <= max_attempts,
            c0 + max_attempts <= i32::MAX,
            0 <= c0,
            state.eventual_failure_side_effects as int == c0 + attempt - 1,
            ctx.ctx().log() == ctx0.log(),
            ctx.ctx().store == ctx0.store,
            ctx.ctx().touched == ctx0.touched,
            ctx.ctx().replay == ctx0.replay,
            ctx.ctx().pos == ctx0.pos,
            ctx.ctx().rand_seed == ctx0.rand_seed,
            ctx.ctx().pending_call == ctx0.pending_call,
            ctx.ctx().outbox == ctx0.outbox,
            ctx.ctx().appended == ctx0.appended,
            ctx.ctx().sleeps@.len() == ctx0.sleeps@.len() + attempt - 1,
            forall|j: int|
                ctx0.sleeps@.len() <= j < ctx.ctx().sleeps@.len() ==> ctx.ctx().sleeps@[j] == 10,
            ctx.ctx().sleeps@.take(ctx0.sleeps@.len() as int) == ctx0.sleeps@,
        decreases max_attempts - attempt,
    {
        let current = state.eventual_failure_side_effects + 1;
        state.eventual_failure_side_effects = current;
        let verdict = run_verdict(
            &policy,
            attempt,
            Failure::retriable(String::from_str("failed at this attempt")),
        );
        match verdict {
            RunVerdict::Commit(o) => {
                let committed = ctx.run_commit(o);
                match committed {
                    OpOutcome::Terminal(_) => {
                        return Ok(current);
                    },
                    OpOutcome::Success(_) => {
                        return Err(Interrupt::Fail(Failure::terminal(
                            String::from_str("the side effect was expected to fail"),
                        )));
                    },
                }
            },
            RunVerdict::RetryAfter(d) => {
                proof {
                    lemma_flat_backoff(policy, attempt as nat);
                }
                ctx.request_wait(d);
                proof {
                    assert(ctx.ctx().sleeps@.take(ctx0.sleeps@.len() as int) =~= ctx0.sleeps@);
                }
                attempt = attempt + 1;
            },
        }
    }
}

/// The handler names the failing object declares.
pub open spec fn failing_names(n: Seq<char>) -> bool {
    ||| n == "terminallyFailingCall"@
    ||| n == "callTerminallyFailingCall"@
    ||| n == "failingCallWithEventualSuccess"@
    ||| n == "terminallyFailingSideEffect"@
    ||| n == "sideEffectSucceedsAfterGivenAttempts"@
    ||| n == "sideEffectFailsAfterGivenAttempts"@
}

/// The static descriptors of the failing object: six exclusive handlers,
/// all but `failingCallWithEventualSuccess` declaring an input.
pub fn failing_descriptor() -> (d: ServiceDescriptor)
    ensures
        d.wf(),
        d.kind == ServiceKind::VirtualObject,
        d.name@ == "Failing"@,
        d.handlers@.len() == 6,
        d.handlers@[0].name@ == "terminallyFailingCall"@,
        d.handlers@[1].name@ == "callTerminallyFailingCall"@,
        d.handlers@[2].name@ == "failingCallWithEventualSuccess"@,
        d.handlers@[3].name@ == "terminallyFailingSideEffect"@,
        d.handlers@[4].name@ == "sideEffectSucceedsAfterGivenAttempts"@,
        d.handlers@[5].name@ == "sideEffectFailsAfterGivenAttempts"@,
        forall|i: int| 0 <= i < 6 ==> (#[trigger] d.handlers@[i]).concurrency is Exclusive,
        forall|i: int| 0 <= i < 6 ==> ((#[trigger] d.handlers@[i]).has_input <==> i != 2),
{
    proof {
        reveal_strlit("terminallyFailingCall");
        reveal_strlit("callTerminallyFailingCall");
        reveal_strlit("failingCallWithEventualSuccess");
        reveal_strlit("terminallyFailingSideEffect");
        reveal_strlit("sideEffectSucceedsAfterGivenAttempts");
        reveal_strlit("sideEffectFailsAfterGivenAttempts");
    }
    proof {
        assert("terminallyFailingCall"@.len() == 21);
        assert("callTerminallyFailingCall"@.len() == 25);
        assert("failingCallWithEventualSuccess"@.len() == 30);
        assert("terminallyFailingSideEffect"@.len() == 27);
        assert("sideEffectSucceedsAfterGivenAttempts"@.len() == 36);
        assert("sideEffectFailsAfterGivenAttempts"@.len() == 33);
    }
    let mut d = ServiceDescriptor::new(ServiceKind::VirtualObject, String::from_str("Failing"));
    let ok0 = d.add_handler(HandlerDescriptor {
        name: String::from_str("terminallyFailingCall"),
        concurrency: Concurrency::Exclusive,
        has_input: true,
    });
    proof {
        assert(ok0);
    }
    let ok1 = d.add_handler(HandlerDescriptor {
        name: String::from_str("callTerminallyFailingCall"),
        concurrency: Concurrency::Exclusive,
        has_input: true,
    });
    proof {
        assert(ok1);
    }
    let ok2 = d.add_handler(HandlerDescriptor {
        name: String::from_str("failingCallWithEventualSuccess"),
        concurrency: Concurrency::Exclusive,
        has_input: false,
    });
    proof {
        assert(ok2);
    }
    let ok3 = d.add_handler(HandlerDescriptor {
        name: String::from_str("terminallyFailingSideEffect"),
        concurrency: Concurrency::Exclusive,
        has_input: true,
    });
    proof {
        assert(ok3);
    }
    let ok4 = d.add_handler(HandlerDescriptor {
        name: String::from_str("sideEffectSucceedsAfterGivenAttempts"),
        concurrency: Concurrency::Exclusive,
        has_input: true,
    });
    proof {
        assert(ok4);
    }
    let ok5 = d.add_handler(HandlerDescriptor {
        name: String::from_str("sideEffectFailsAfterGivenAttempts"),
        concurrency: Concurrency::Exclusive,
        has_input: true,
    });
    proof {
        assert(ok5);
    }
    d
}

/// Dispatches one invocation of the failing object: resolves the handler
/// name, checks the key and decodes the input, constructs the exclusive
/// object context, runs the handler, and classifies its result.  An unknown
/// handler name is a permanent dispatch error returned before any context
/// exists; inputs a handler cannot accept are terminal decode failures.
pub fn dispatch_failing(
    state: &mut FailingState,
    inv: Invocation,
    snapshot: StateStore,
    seed: u64,
) -> (out: DispatchOutput)
    requires
        snapshot.wf(),
    ensures
        !failing_names(inv.handler_name@) ==> {
            &&& out.outcome is Failure
            &&& out.new_entries@.len() == 0
            &&& out.sleeps@.len() == 0
            &&& out.pending_call is None
            &&& out.outbox@.len() == 0
            &&& *final(state) == *old(state)
        },
        (failing_names(inv.handler_name@) && inv.key is None) ==> out.outcome is Failure,
        (inv.handler_name@ == "terminallyFailingCall"@ && inv.key is Some) ==> (match inv.input@ {
            PayloadVal::Text(m) => out.outcome matches InvocationOutcome::Failure(t) && t@
                == (TerminalErrVal { message: m, code: None }),
            _ => out.outcome is Failure,
        }),
        (inv.handler_name@ == "failingCallWithEventualSuccess"@ && inv.key is Some && 0 <= old(
            state,
        ).eventual_success_calls < i32::MAX) ==> ({
            let c0 = old(state).eventual_success_calls as int;
            if c0 + 1 >= 4 {
                &&& out.outcome matches InvocationOutcome::Success(p) && p@ == PayloadVal::Int(
                    c0 + 1,
                )
                &&& final(state).eventual_success_calls == 0
            } else {
                &&& out.outcome is Retriable
                &&& final(state).eventual_success_calls == c0 + 1
            }
        }),
        (inv.handler_name@ == "sideEffectFailsAfterGivenAttempts"@ && inv.key is Some
            && inv.journal@.len() == 0) ==> (match inv.input@ {
            PayloadVal::Int(n) => {
                if 1 <= n <= i32::MAX && 0 <= old(state).eventual_failure_side_effects
                    && old(state).eventual_failure_side_effects + n <= i32::MAX {
                    &&& out.outcome matches InvocationOutcome::Success(p) && p@
                        == PayloadVal::Int(old(state).eventual_failure_side_effects + n)
                    &&& final(state).eventual_failure_side_effects as int == old(
                        state,
                    ).eventual_failure_side_effects + n
                    &&& out.sleeps@.len() == n - 1
                } else {
                    out.outcome is Failure
                }
            },
            _ => out.outcome is Failure,
        }),
        (inv.handler_name@ == "sideEffectSucceedsAfterGivenAttempts"@ && inv.key is Some
            && inv.journal@.len() == 0) ==> (match inv.input@ {
            PayloadVal::Int(n) => {
                if i32::MIN <= n <= i32::MAX && 0 <= old(state).eventual_success_side_effects
                    < i32::MAX {
                    ({
                        let c0 = old(state).eventual_success_side_effects as int;
                        let v = if c0 + 1 >= n { c0 + 1 } else { n };
                        &&& out.outcome matches InvocationOutcome::Success(p) && p@
                            == PayloadVal::Int(v)
                        &&& final(state).eventual_success_side_effects == 0
                        &&& out.sleeps@.len() == v - c0 - 1
                    })
                } else {
                    out.outcome is Failure
                }
            },
            _ => out.outcome is Failure,
        }),
{
    proof {
        reveal_strlit("terminallyFailingCall");
        reveal_strlit("callTerminallyFailingCall");
        reveal_strlit("failingCallWithEventualSuccess");
        reveal_strlit("terminallyFailingSideEffect");
        reveal_strlit("sideEffectSucceedsAfterGivenAttempts");
        reveal_strlit("sideEffectFailsAfterGivenAttempts");
    }
    let d = failing_descriptor();
    let idx = match d.resolve(&inv.handler_name) {
        Some(i) => i,
        None => {
            return DispatchOutput {
                outcome: InvocationOutcome::Failure(TerminalErr::new(
                    String::from_str("unknown handler"),
                )),
                new_entries: Vec::new(),
                sleeps: Vec::new(),
                pending_call: None,
                outbox: Vec::new(),
            };
        },
    };
    let key = match inv.key {
        Some(k) => k,
        None => {
            return DispatchOutput {
                outcome: InvocationOutcome::Failure(TerminalErr::new(
                    String::from_str("object invocation without a key"),
                )),
                new_entries: Vec::new(),
                sleeps: Vec::new(),
                pending_call: None,
                outbox: Vec::new(),
            };
        },
    };
    let inner = InvocationCtx::new(inv.journal, snapshot, seed);
    let mut ctx = ObjectContext::new(inner, key);
    if idx == 0 {
        let res = match inv.input {
            Payload::Text(m) => terminally_failing_call(&mut ctx, m),
            _ => Err(Interrupt::Fail(Failure::terminal(
                String::from_str("input is not a text message"),
            ))),
        };
        let outcome = outcome_of(res);
        output_from(ctx.into_inner(), outcome)
    } else if idx == 1 {
        let res = match inv.input {
            Payload::Text(m) => call_terminally_failing_call(&mut ctx, m),
            _ => Err(Interrupt::Fail(Failure::terminal(
                String::from_str("input is not a text message"),
            ))),
        };
        let outcome = outcome_of(res);
        output_from(ctx.into_inner(), outcome)
    } else if idx == 2 {
        let res: Result<Payload, Interrupt> = if state.eventual_success_calls >= 0
            && state.eventual_success_calls < i32::MAX {
            match failing_call_with_eventual_success(state) {
                Ok(v) => Ok(Payload::Int(v as i64)),
                Err(e) => Err(e),
            }
        } else {
            Err(Interrupt::Fail(Failure::terminal(
                String::from_str("attempt counter out of range"),
            )))
        };
        let outcome = outcome_of(res);
        output_from(ctx.into_inner(), outcome)
    } else if idx == 3 {
        let res = match inv.input {
            Payload::Text(m) => terminally_failing_side_effect(&mut ctx, m),
            _ => Err(Interrupt::Fail(Failure::terminal(
                String::from_str("input is not a text message"),
            ))),
        };
        let outcome = outcome_of(res);
        output_from(ctx.into_inner(), outcome)
    } else if idx == 4 {
        let res: Result<Payload, Interrupt> = match inv.input {
            Payload::Int(n) => {
                if n >= i32::MIN as i64 && n <= i32::MAX as i64
                    && state.eventual_success_side_effects >= 0
                    && state.eventual_success_side_effects < i32::MAX {
                    match side_effect_succeeds_after_given_attempts(
                        &mut ctx,
                        state,
                        n as i32,
                    ) {
                        Ok(v) => Ok(Payload::Int(v as i64)),
                        Err(e) => Err(e),
                    }
                } else {
                    Err(Interrupt::Fail(Failure::terminal(
                        String::from_str("attempt count out of range"),
                    )))
                }
            },
            _ => Err(Interrupt::Fail(Failure::terminal(
                String::from_str("input is not an integer"),
            ))),
        };
        let outcome = outcome_of(res);
        output_from(ctx.into_inner(), outcome)
    } else {
        let res: Result<Payload, Interrupt> = match inv.input {
            Payload::Int(n) => {
                if n >= 1 && n <= i32::MAX as i64 && state.eventual_failure_side_effects >= 0
                    && state.eventual_failure_side_effects as i64 + n <= i32::MAX as i64 {
                    match side_effect_fails_after_given_attempts(
                        &mut ctx,
                        state,
                        n as u32,
                    ) {
                        Ok(v) => Ok(Payload::Int(v as i64)),
                        Err(e) => Err(e),
                    }
                } else {
                    Err(Interrupt::Fail(Failure::terminal(
                        String::from_str("attempt count out of range"),
                    )))
                }
            },
            _ => Err(Interrupt::Fail(Failure::terminal(
                String::from_str("input is not an integer"),
            ))),
        };
        let outcome = outcome_of(res);
        output_from(ctx.into_inner(), outcome)
    }
}

} // verus!
