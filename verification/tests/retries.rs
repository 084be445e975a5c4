use durable_core::dispatch::{Invocation, InvocationOutcome};
use durable_core::errors::{Failure, TerminalErr};
use durable_core::failing::{dispatch_failing, hex_string_of, FailingState};
use durable_core::journal::{JournalEntry, OpOutcome};
use durable_core::payload::Payload;
use durable_core::retry::{delay_for_attempt, run_verdict, RetryPolicy, RunVerdict};
use durable_core::state::StateStore;

fn failing_inv(handler: &str, input: Payload, journal: Vec<JournalEntry>) -> Invocation {
    Invocation {
        service_name: "Failing".to_string(),
        handler_name: handler.to_string(),
        key: Some("f1".to_string()),
        input,
        journal,
    }
}

#[test]
fn flat_policy_waits_ten_millis_every_attempt() {
    let p = RetryPolicy::new().initial_delay(10);
    assert_eq!(delay_for_attempt(&p, 1), 10);
    assert_eq!(delay_for_attempt(&p, 2), 10);
    assert_eq!(delay_for_attempt(&p, 7), 10);
}

#[test]
fn geometric_policy_doubles_and_caps() {
    let p = RetryPolicy::new().initial_delay(10).factor_milli(2000);
    assert_eq!(delay_for_attempt(&p, 1), 10);
    assert_eq!(delay_for_attempt(&p, 2), 20);
    assert_eq!(delay_for_attempt(&p, 3), 40);
    let capped = p.max_delay(25);
    assert_eq!(delay_for_attempt(&capped, 1), 10);
    assert_eq!(delay_for_attempt(&capped, 2), 20);
    assert_eq!(delay_for_attempt(&capped, 3), 25);
    assert_eq!(delay_for_attempt(&capped, 9), 25);
}

#[test]
fn fractional_factor_is_raised_to_one() {
    let p = RetryPolicy::new().initial_delay(8).factor_milli(500);
    assert_eq!(delay_for_attempt(&p, 5), 8);
}

#[test]
fn terminal_failure_commits_without_retry_whatever_the_policy() {
    let p = RetryPolicy::new().initial_delay(10).max_attempts(9);
    let err = TerminalErr::new("boom".to_string());
    let v = run_verdict(&p, 1, Failure::Terminal(err.clone()));
    assert_eq!(v, RunVerdict::Commit(OpOutcome::Terminal(err.clone())));
    let v2 = run_verdict(&p, 7, Failure::Terminal(err.clone()));
    assert_eq!(v2, RunVerdict::Commit(OpOutcome::Terminal(err)));
}

#[test]
fn retriable_failure_retries_until_the_bound() {
    let p = RetryPolicy::new().initial_delay(10).max_attempts(3);
    let v = run_verdict(&p, 2, Failure::retriable("flaky".to_string()));
    assert_eq!(v, RunVerdict::RetryAfter(10));
    let v2 = run_verdict(&p, 3, Failure::retriable("flaky".to_string()));
    assert_eq!(
        v2,
        RunVerdict::Commit(OpOutcome::Terminal(TerminalErr::new("flaky".to_string()))),
    );
}

#[test]
fn side_effect_fails_after_exactly_two_attempts() {
    let mut state = FailingState::new();
    let out = dispatch_failing(
        &mut state,
        failing_inv("sideEffectFailsAfterGivenAttempts", Payload::Int(2), vec![]),
        StateStore::new(),
        1,
    );
    assert_eq!(out.outcome, InvocationOutcome::Success(Payload::Int(2)));
    assert_eq!(state.eventual_failure_side_effects, 2);
    assert_eq!(out.sleeps, vec![10]);
    assert_eq!(out.new_entries.len(), 1);

    let out2 = dispatch_failing(
        &mut state,
        failing_inv("sideEffectFailsAfterGivenAttempts", Payload::Int(2), out.new_entries.clone()),
        StateStore::new(),
        1,
    );
    assert_eq!(out2.outcome, InvocationOutcome::Success(Payload::Int(2)));
    assert_eq!(state.eventual_failure_side_effects, 2);
    assert!(out2.sleeps.is_empty());
    assert!(out2.new_entries.is_empty());
}

#[test]
fn side_effect_succeeds_after_four_attempts_with_flat_waits() {
    let mut state = FailingState::new();
    let out = dispatch_failing(
        &mut state,
        failing_inv("sideEffectSucceedsAfterGivenAttempts", Payload::Int(4), vec![]),
        StateStore::new(),
        1,
    );
    assert_eq!(out.outcome, InvocationOutcome::Success(Payload::Int(4)));
    assert_eq!(state.eventual_success_side_effects, 0);
    assert_eq!(out.sleeps, vec![10, 10, 10]);
    assert_eq!(out.new_entries.len(), 1);

    let out2 = dispatch_failing(
        &mut state,
        failing_inv(
            "sideEffectSucceedsAfterGivenAttempts",
            Payload::Int(4),
            out.new_entries.clone(),
        ),
        StateStore::new(),
        1,
    );
    assert_eq!(out2.outcome, InvocationOutcome::Success(Payload::Int(4)));
    assert_eq!(state.eventual_success_side_effects, 0);
    assert!(out2.sleeps.is_empty());
    assert!(out2.new_entries.is_empty());
}

#[test]
fn terminal_side_effect_never_retries() {
    let mut state = FailingState::new();
    let out = dispatch_failing(
        &mut state,
        failing_inv("terminallyFailingSideEffect", Payload::Text("kaput".to_string()), vec![]),
        StateStore::new(),
        1,
    );
    match &out.outcome {
        InvocationOutcome::Failure(t) => assert_eq!(t.message, "kaput"),
        other => panic!("expected a terminal failure, got {:?}", other),
    }
    assert!(out.sleeps.is_empty());
    assert_eq!(out.new_entries.len(), 1);

    let out2 = dispatch_failing(
        &mut state,
        failing_inv(
            "terminallyFailingSideEffect",
            Payload::Text("kaput".to_string()),
            out.new_entries.clone(),
        ),
        StateStore::new(),
        1,
    );
    match &out2.outcome {
        InvocationOutcome::Failure(t) => assert_eq!(t.message, "kaput"),
        other => panic!("expected a terminal failure, got {:?}", other),
    }
    assert!(out2.new_entries.is_empty());
}

#[test]
fn handler_succeeds_on_fourth_invocation_attempt() {
    let mut state = FailingState::new();
    for _ in 0..3 {
        let out = dispatch_failing(
            &mut state,
            failing_inv("failingCallWithEventualSuccess", Payload::Empty, vec![]),
            StateStore::new(),
            1,
        );
        assert!(matches!(out.outcome, InvocationOutcome::Retriable(_)));
    }
    let out = dispatch_failing(
        &mut state,
        failing_inv("failingCallWithEventualSuccess", Payload::Empty, vec![]),
        StateStore::new(),
        1,
    );
    assert_eq!(out.outcome, InvocationOutcome::Success(Payload::Int(4)));
    assert_eq!(state.eventual_success_calls, 0);
}

#[test]
fn terminally_failing_call_reports_its_message() {
    let mut state = FailingState::new();
    let out = dispatch_failing(
        &mut state,
        failing_inv("terminallyFailingCall", Payload::Text("no".to_string()), vec![]),
        StateStore::new(),
        1,
    );
    match &out.outcome {
        InvocationOutcome::Failure(t) => {
            assert_eq!(t.message, "no");
            assert_eq!(t.code, None);
        },
        other => panic!("expected a terminal failure, got {:?}", other),
    }
    assert!(out.new_entries.is_empty());
}

#[test]
fn call_suspends_then_replays_the_recorded_terminal_outcome() {
    let mut state = FailingState::new();
    let out = dispatch_failing(
        &mut state,
        failing_inv("callTerminallyFailingCall", Payload::Text("kaput".to_string()), vec![]),
        StateStore::new(),
        42,
    );
    assert_eq!(out.outcome, InvocationOutcome::Suspended);
    let pending = out.pending_call.clone().expect("a pending call");
    assert_eq!(pending.service, "Failing");
    assert_eq!(pending.handler, "terminallyFailingCall");
    assert_eq!(pending.key.as_ref().expect("a derived key").len(), 16);
    assert_eq!(out.new_entries.len(), 1);

    let target_out = dispatch_failing(
        &mut state,
        Invocation {
            service_name: pending.service.clone(),
            handler_name: pending.handler.clone(),
            key: pending.key.clone(),
            input: pending.input.clone(),
            journal: vec![],
        },
        StateStore::new(),
        43,
    );
    let target_err = match target_out.outcome {
        InvocationOutcome::Failure(t) => t,
        other => panic!("expected the target to fail terminally, got {:?}", other),
    };
    assert_eq!(target_err.message, "kaput");

    let mut journal = out.new_entries.clone();
    journal.push(JournalEntry::CallResult { outcome: OpOutcome::Terminal(target_err) });
    let out2 = dispatch_failing(
        &mut state,
        failing_inv("callTerminallyFailingCall", Payload::Text("kaput".to_string()), journal),
        StateStore::new(),
        42,
    );
    match &out2.outcome {
        InvocationOutcome::Failure(t) => assert_eq!(t.message, "kaput"),
        other => panic!("expected the terminal outcome to propagate, got {:?}", other),
    }
}

#[test]
fn hex_rendering_of_machine_words() {
    assert_eq!(hex_string_of(0), "0000000000000000");
    assert_eq!(hex_string_of(0x123456789abcdef0), "123456789abcdef0");
    assert_eq!(hex_string_of(u64::MAX), "ffffffffffffffff");
}
