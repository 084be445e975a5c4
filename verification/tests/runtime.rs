use durable_core::context::InvocationCtx;
use durable_core::counter::dispatch_counter;
use durable_core::dispatch::{complete_invocation, Invocation, InvocationOutcome};
use durable_core::failing::{dispatch_failing, FailingState};
use durable_core::journal::{EntryKind, JournalEntry, OpOutcome};
use durable_core::payload::Payload;
use durable_core::state::StateStore;

fn make_inv(
    service: &str,
    handler: &str,
    key: Option<&str>,
    input: Payload,
    journal: Vec<JournalEntry>,
) -> Invocation {
    Invocation {
        service_name: service.to_string(),
        handler_name: handler.to_string(),
        key: key.map(|k| k.to_string()),
        input,
        journal,
    }
}

#[test]
fn counter_scenario_adds_then_reads() {
    let mut store = StateStore::new();
    let out1 = dispatch_counter(
        make_inv("Counter", "add", Some("c1"), Payload::Int(5), vec![]),
        store.snapshot(),
        1,
    );
    assert_eq!(out1.outcome, InvocationOutcome::Success(Payload::Int(5)));
    complete_invocation(&mut store, &out1, &out1.new_entries);

    let out2 = dispatch_counter(
        make_inv("Counter", "add", Some("c1"), Payload::Int(3), vec![]),
        store.snapshot(),
        2,
    );
    assert_eq!(out2.outcome, InvocationOutcome::Success(Payload::Int(8)));
    complete_invocation(&mut store, &out2, &out2.new_entries);

    let out3 = dispatch_counter(
        make_inv("Counter", "get", Some("c1"), Payload::Empty, vec![]),
        store.snapshot(),
        3,
    );
    assert_eq!(out3.outcome, InvocationOutcome::Success(Payload::Int(8)));
    complete_invocation(&mut store, &out3, &out3.new_entries);

    let out4 = dispatch_counter(
        make_inv("Counter", "reset", Some("c1"), Payload::Empty, vec![]),
        store.snapshot(),
        4,
    );
    assert_eq!(out4.outcome, InvocationOutcome::Success(Payload::Empty));
    complete_invocation(&mut store, &out4, &out4.new_entries);

    let out5 = dispatch_counter(
        make_inv("Counter", "get", Some("c1"), Payload::Empty, vec![]),
        store.snapshot(),
        5,
    );
    assert_eq!(out5.outcome, InvocationOutcome::Success(Payload::Int(0)));
}

#[test]
fn counter_overflow_is_terminal_and_commits_nothing() {
    let mut store = StateStore::new();
    let out1 = dispatch_counter(
        make_inv("Counter", "add", Some("c1"), Payload::Int(i64::MAX), vec![]),
        store.snapshot(),
        1,
    );
    assert_eq!(out1.outcome, InvocationOutcome::Success(Payload::Int(i64::MAX)));
    complete_invocation(&mut store, &out1, &out1.new_entries);

    let out2 = dispatch_counter(
        make_inv("Counter", "add", Some("c1"), Payload::Int(1), vec![]),
        store.snapshot(),
        2,
    );
    assert!(matches!(out2.outcome, InvocationOutcome::Failure(_)));
    complete_invocation(&mut store, &out2, &out2.new_entries);

    let out3 = dispatch_counter(
        make_inv("Counter", "get", Some("c1"), Payload::Empty, vec![]),
        store.snapshot(),
        3,
    );
    assert_eq!(out3.outcome, InvocationOutcome::Success(Payload::Int(i64::MAX)));
}

#[test]
fn unknown_handler_is_dispatch_error_without_context() {
    let out = dispatch_counter(
        make_inv("Counter", "increment", Some("c1"), Payload::Int(5), vec![]),
        StateStore::new(),
        1,
    );
    assert!(matches!(out.outcome, InvocationOutcome::Failure(_)));
    assert!(out.new_entries.is_empty());
    assert!(out.sleeps.is_empty());
    assert!(out.pending_call.is_none());
    assert!(out.outbox.is_empty());

    let mut state = FailingState::new();
    let out2 = dispatch_failing(
        &mut state,
        make_inv("Failing", "noSuchHandler", Some("f"), Payload::Empty, vec![]),
        StateStore::new(),
        1,
    );
    assert!(matches!(out2.outcome, InvocationOutcome::Failure(_)));
    assert!(out2.new_entries.is_empty());
}

#[test]
fn object_invocation_without_key_fails() {
    let out = dispatch_counter(
        make_inv("Counter", "add", None, Payload::Int(5), vec![]),
        StateStore::new(),
        1,
    );
    assert!(matches!(out.outcome, InvocationOutcome::Failure(_)));
}

#[test]
fn bad_input_payload_fails_to_decode() {
    let out = dispatch_counter(
        make_inv("Counter", "add", Some("c1"), Payload::Text("five".to_string()), vec![]),
        StateStore::new(),
        1,
    );
    assert!(matches!(out.outcome, InvocationOutcome::Failure(_)));
}

#[test]
fn state_read_after_write_needs_no_journal() {
    let mut ctx = InvocationCtx::new(vec![], StateStore::new(), 7);
    ctx.set("k".to_string(), Payload::Int(5)).unwrap();
    let entries_after_set = ctx.appended.len();
    let got = ctx.get(&"k".to_string()).unwrap();
    assert_eq!(got, Some(Payload::Int(5)));
    assert_eq!(ctx.appended.len(), entries_after_set);
    assert_eq!(ctx.pos, 0);
}

#[test]
fn cleared_key_reads_as_absent() {
    let mut ctx = InvocationCtx::new(vec![], StateStore::new(), 7);
    ctx.set("k".to_string(), Payload::Int(5)).unwrap();
    ctx.clear(&"k".to_string()).unwrap();
    assert_eq!(ctx.get(&"k".to_string()).unwrap(), None);
    ctx.set("a".to_string(), Payload::Int(1)).unwrap();
    ctx.set("b".to_string(), Payload::Int(2)).unwrap();
    ctx.clear_all().unwrap();
    assert_eq!(ctx.get(&"a".to_string()).unwrap(), None);
    assert_eq!(ctx.get(&"b".to_string()).unwrap(), None);
}

#[test]
fn replay_returns_recorded_random_draw() {
    let mut c1 = InvocationCtx::new(vec![], StateStore::new(), 9);
    let v1 = c1.rand_u64().unwrap();
    let mut c2 = InvocationCtx::new(c1.appended.clone(), StateStore::new(), 9);
    let v2 = c2.rand_u64().unwrap();
    assert_eq!(v1, v2);
    assert!(c2.appended.is_empty());
}

#[test]
fn timer_records_once_and_replay_does_not_wait_again() {
    let mut ctx = InvocationCtx::new(vec![], StateStore::new(), 0);
    ctx.sleep(250).unwrap();
    assert_eq!(ctx.sleeps, vec![250]);
    assert_eq!(ctx.appended, vec![JournalEntry::Timer { millis: 250 }]);
    let mut replayed = InvocationCtx::new(ctx.appended.clone(), StateStore::new(), 0);
    replayed.sleep(250).unwrap();
    assert!(replayed.sleeps.is_empty());
    assert!(replayed.appended.is_empty());
}

#[test]
fn send_is_fire_and_forget() {
    let mut ctx = InvocationCtx::new(vec![], StateStore::new(), 0);
    ctx.send(
        "Counter".to_string(),
        Some("c1".to_string()),
        "add".to_string(),
        Payload::Int(1),
    )
    .unwrap();
    assert_eq!(ctx.outbox.len(), 1);
    assert!(ctx.appended.is_empty());
    assert!(ctx.pending_call.is_none());
}

#[test]
fn journal_entries_follow_operation_order() {
    let out = dispatch_counter(
        make_inv("Counter", "add", Some("c1"), Payload::Int(5), vec![]),
        StateStore::new(),
        1,
    );
    let kinds: Vec<EntryKind> = out.new_entries.iter().map(|e| e.kind()).collect();
    assert_eq!(kinds, vec![EntryKind::StateGet, EntryKind::StateSet]);
}

#[test]
fn mismatched_journal_kind_is_nondeterminism() {
    let journal = vec![JournalEntry::RunResult { outcome: OpOutcome::Success(Payload::Empty) }];
    let out = dispatch_counter(
        make_inv("Counter", "add", Some("c1"), Payload::Int(1), journal),
        StateStore::new(),
        1,
    );
    assert_eq!(out.outcome, InvocationOutcome::NonDeterminism);
}
