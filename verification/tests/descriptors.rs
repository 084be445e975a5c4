use durable_core::context::InvocationCtx;
use durable_core::counter::counter_descriptor;
use durable_core::dispatch::{context_kind_for, discover, Concurrency, ContextKind, ServiceKind};
use durable_core::errors::{Failure, TerminalErr};
use durable_core::failing::failing_descriptor;
use durable_core::payload::Payload;
use durable_core::state::StateStore;
use durable_core::variants::{Context, SharedWorkflowContext, WorkflowContext};

#[test]
fn context_variant_follows_kind_and_mode() {
    assert_eq!(
        context_kind_for(ServiceKind::Service, Concurrency::Exclusive),
        ContextKind::Plain,
    );
    assert_eq!(context_kind_for(ServiceKind::Service, Concurrency::Shared), ContextKind::Plain);
    assert_eq!(
        context_kind_for(ServiceKind::VirtualObject, Concurrency::Exclusive),
        ContextKind::Object,
    );
    assert_eq!(
        context_kind_for(ServiceKind::VirtualObject, Concurrency::Shared),
        ContextKind::SharedObject,
    );
    assert_eq!(
        context_kind_for(ServiceKind::Workflow, Concurrency::Exclusive),
        ContextKind::Workflow,
    );
    assert_eq!(
        context_kind_for(ServiceKind::Workflow, Concurrency::Shared),
        ContextKind::SharedWorkflow,
    );
}

#[test]
fn counter_manifest_defaults_shared_modes() {
    let d = counter_descriptor();
    let m = discover(&d);
    assert_eq!(m.kind, ServiceKind::VirtualObject);
    assert_eq!(m.name, "Counter");
    assert_eq!(m.handlers.len(), 3);
    assert_eq!(m.handlers[0].name, "add");
    assert_eq!(m.handlers[0].mode, None);
    assert_eq!(m.handlers[1].name, "get");
    assert_eq!(m.handlers[1].mode, Some(Concurrency::Shared));
    assert_eq!(m.handlers[2].name, "reset");
    assert_eq!(m.handlers[2].mode, None);
}

#[test]
fn failing_manifest_lists_all_handlers() {
    let d = failing_descriptor();
    let m = discover(&d);
    assert_eq!(m.kind, ServiceKind::VirtualObject);
    assert_eq!(m.name, "Failing");
    let names: Vec<&str> = m.handlers.iter().map(|h| h.name.as_str()).collect();
    assert_eq!(
        names,
        vec![
            "terminallyFailingCall",
            "callTerminallyFailingCall",
            "failingCallWithEventualSuccess",
            "terminallyFailingSideEffect",
            "sideEffectSucceedsAfterGivenAttempts",
            "sideEffectFailsAfterGivenAttempts",
        ],
    );
    assert!(m.handlers.iter().all(|h| h.mode.is_none()));
}

#[test]
fn resolution_finds_declared_names_only() {
    let d = counter_descriptor();
    assert_eq!(d.resolve(&"add".to_string()), Some(0));
    assert_eq!(d.resolve(&"get".to_string()), Some(1));
    assert_eq!(d.resolve(&"reset".to_string()), Some(2));
    assert_eq!(d.resolve(&"increment".to_string()), None);
    assert_eq!(d.resolve(&"".to_string()), None);
}

#[test]
fn generic_failures_default_to_retriable() {
    let f = Failure::from("disk hiccup".to_string());
    assert!(!f.is_terminal());
    let t = Failure::from(TerminalErr::with_code("bad request".to_string(), 400));
    assert!(t.is_terminal());
    match t {
        Failure::Terminal(e) => {
            assert_eq!(e.message, "bad request");
            assert_eq!(e.code, Some(400));
        },
        Failure::Retriable(_) => panic!("an explicit terminal error must stay terminal"),
    }
}

#[test]
fn workflow_contexts_read_and_write_state() {
    let mut wf = WorkflowContext::new(
        InvocationCtx::new(vec![], StateStore::new(), 5),
        "wf1".to_string(),
    );
    wf.set("step".to_string(), Payload::Text("done".to_string())).unwrap();
    assert_eq!(
        wf.get(&"step".to_string()).unwrap(),
        Some(Payload::Text("done".to_string())),
    );
    let inner = wf.into_inner();
    let mut shared = SharedWorkflowContext::new(
        InvocationCtx::new(vec![], inner.store, 6),
        "wf1".to_string(),
    );
    assert_eq!(
        shared.get(&"step".to_string()).unwrap(),
        Some(Payload::Text("done".to_string())),
    );
}

#[test]
fn plain_context_has_deterministic_primitives_but_no_state() {
    let mut ctx = Context::new(InvocationCtx::new(vec![], StateStore::new(), 11));
    let a = ctx.rand_u64().unwrap();
    let inner = ctx.into_inner();
    let mut replayed = Context::new(InvocationCtx::new(inner.appended, StateStore::new(), 11));
    let b = replayed.rand_u64().unwrap();
    assert_eq!(a, b);
}

#[test]
fn byte_payloads_round_trip_through_state() {
    let mut s = StateStore::new();
    s.set("blob".to_string(), Payload::Bytes(vec![0, 255, 7]));
    assert_eq!(s.get(&"blob".to_string()), Some(Payload::Bytes(vec![0, 255, 7])));
    assert_ne!(s.get(&"blob".to_string()), Some(Payload::Bytes(vec![0, 255, 8])));
}

#[test]
fn store_rejects_nothing_and_snapshots_are_independent() {
    let mut s = StateStore::new();
    s.set("a".to_string(), Payload::Int(1));
    s.set("b".to_string(), Payload::Text("x".to_string()));
    s.set("a".to_string(), Payload::Int(2));
    assert_eq!(s.get(&"a".to_string()), Some(Payload::Int(2)));
    assert_eq!(s.get(&"b".to_string()), Some(Payload::Text("x".to_string())));
    assert_eq!(s.get(&"c".to_string()), None);

    let mut snap = s.snapshot();
    snap.set("a".to_string(), Payload::Int(9));
    snap.clear(&"b".to_string());
    assert_eq!(s.get(&"a".to_string()), Some(Payload::Int(2)));
    assert_eq!(s.get(&"b".to_string()), Some(Payload::Text("x".to_string())));
    assert_eq!(snap.get(&"a".to_string()), Some(Payload::Int(9)));
    assert_eq!(snap.get(&"b".to_string()), None);

    s.clear_all();
    assert_eq!(s.get(&"a".to_string()), None);
}
