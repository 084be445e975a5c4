//! Dispatch table and discovery manifest.
//!
//! A service declares an ordered list of handlers, each with a unique name, a
//! concurrency mode and an input arity.  The dispatch table resolves an
//! invocation's handler name to its descriptor and selects the context
//! variant from the service kind and the concurrency mode; an unknown name is
//! a permanent dispatch error, reported before any context is constructed and
//! never retried.  The discovery manifest is derived from the same static
//! descriptors, with no invocation present.

use vstd::prelude::*;
use crate::context::InvocationCtx;
use crate::errors::{Failure, FailureVal, Interrupt, InterruptVal, TerminalErr};
use crate::journal::{entry_views, CallRequest, JournalEntry};
use crate::payload::Payload;
use crate::state::{applied_val, commit_entries, StateStore};

verus! {

/// The kind of a declared service.
#[derive(PartialEq, Eq, Structural, Clone, Copy, Debug)]
pub enum ServiceKind {
    /// Stateless; invocations carry no instance key.
    Service,
    /// Keyed, stateful actor.
    VirtualObject,
    /// Keyed, run-once workflow.
    Workflow,
}

/// The concurrency mode of one handler.
#[derive(PartialEq, Eq, Structural, Clone, Copy, Debug)]
pub enum Concurrency {
    /// May mutate instance state; runs alone per key.
    Exclusive,
    /// Read-only on state; may run concurrently.
    Shared,
}

/// The capability set of the context handed to a handler.
#[derive(PartialEq, Eq, Structural, Clone, Copy, Debug)]
pub enum ContextKind {
    /// No key and no state access.
    Plain,
    /// Full state read/write on an object instance.
    Object,
    /// Read-only state on an object instance.
    SharedObject,
    /// Full state read/write on a workflow instance.
    Workflow,
    /// Read-only state on a workflow instance.
    SharedWorkflow,
}

/// The context variant a handler receives, selected statically from the
/// service kind and the handler's concurrency mode.  A stateless service
/// always gets the plain context.
pub open spec fn spec_context_kind(kind: ServiceKind, conc: Concurrency) -> ContextKind {
    match kind {
        ServiceKind::Service => ContextKind::Plain,
        ServiceKind::VirtualObject => match conc {
            Concurrency::Exclusive => ContextKind::Object,
            Concurrency::Shared => ContextKind::SharedObject,
        },
        ServiceKind::Workflow => match conc {
            Concurrency::Exclusive => ContextKind::Workflow,
            Concurrency::Shared => ContextKind::SharedWorkflow,
        },
    }
}

/// Selects the context variant for a handler.
pub fn context_kind_for(kind: ServiceKind, conc: Concurrency) -> (r: ContextKind)
    ensures
        r == spec_context_kind(kind, conc),
{
    match kind {
        ServiceKind::Service => ContextKind::Plain,
        ServiceKind::VirtualObject => match conc {
            Concurrency::Exclusive => ContextKind::Object,
            Concurrency::Shared => ContextKind::SharedObject,
        },
        ServiceKind::Workflow => match conc {
            Concurrency::Exclusive => ContextKind::Workflow,
            Concurrency::Shared => ContextKind::SharedWorkflow,
        },
    }
}

/// One declared handler: produced at service-definition time, immutable.
#[derive(Debug, Clone, PartialEq, Eq)]
pub struct HandlerDescriptor {
    /// Unique within the service.
    pub name: String,
    pub concurrency: Concurrency,
    /// The handler declares an input payload.
    pub has_input: bool,
}

/// One declared service: created at startup, never mutated afterwards.
pub struct ServiceDescriptor {
    pub kind: ServiceKind,
    pub name: String,
    pub handlers: Vec<HandlerDescriptor>,
}

/// A handler name occurs among the descriptors.
pub open spec fn names_contain(hs: Seq<HandlerDescriptor>, n: Seq<char>) -> bool {
    exists|i: int| 0 <= i < hs.len() && hs[i].name@ == n
}

impl ServiceDescriptor {
    /// Handler names are pairwise distinct: every name in the dispatch table
    /// has exactly one matching descriptor.
    pub open spec fn wf(self) -> bool {
        forall|i: int, j: int|
            0 <= i < j < self.handlers@.len()
                ==> self.handlers@[i].name@ != self.handlers@[j].name@
    }

    /// The service declares a handler of this name.
    pub open spec fn has_handler(self, n: Seq<char>) -> bool {
        names_contain(self.handlers@, n)
    }

    /// A service of the given kind with no handlers yet.
    pub fn new(kind: ServiceKind, name: String) -> (r: ServiceDescriptor)
        ensures
            r.wf(),
            r.kind == kind,
            r.name == name,
            r.handlers@ =~= Seq::<HandlerDescriptor>::empty(),
    {
        ServiceDescriptor { kind, name, handlers: Vec::new() }
    }

    /// Declares one more handler.  Returns false, changing nothing, when the
    /// name is already taken.
    pub fn add_handler(&mut self, h: HandlerDescriptor) -> (r: bool)
        requires
            old(self).wf(),
        ensures
            final(self).wf(),
            r == !old(self).has_handler(h.name@),
            r ==> final(self).handlers@ == old(self).handlers@.push(h),
            !r ==> *final(self) == *old(self),
            final(self).kind == old(self).kind,
            final(self).name == old(self).name,
    {
        match self.resolve(&h.name) {
            Some(_) => false,
            None => {
                let ghost hs0 = self.handlers@;
                let ghost hv = h.name@;
                self.handlers.push(h);
                proof {
                    assert forall|i: int, j: int|
                        0 <= i < j < self.handlers@.len()
                        implies self.handlers@[i].name@ != self.handlers@[j].name@ by {
                        if j < hs0.len() {
                            assert(self.handlers@[i] == hs0[i]);
                            assert(self.handlers@[j] == hs0[j]);
                        } else {
                            assert(self.handlers@[i] == hs0[i]);
                            assert(self.handlers@[j].name@ == hv);
                        }
                    }
                }
                true
            },
        }
    }

    /// Resolves a handler name to the index of its descriptor.  Fails exactly
    /// on names the service does not declare.
    pub fn resolve(&self, name: &String) -> (r: Option<usize>)
        ensures
            match r {
                Option::Some(i) => i < self.handlers@.len()
                    && self.handlers@[i as int].name@ == name@,
                Option::None => !self.has_handler(name@),
            },
    {
        let mut i: usize = 0;
        while i < self.handlers.len()
            invariant
                i <= self.handlers@.len(),
                forall|j: int| 0 <= j < i ==> self.handlers@[j].name@ != name@,
            decreases self.handlers@.len() - i,
        {
            if self.handlers[i].name == *name {
                return Some(i);
            }
            i = i + 1;
        }
        None
    }
}

/// One handler in the discovery manifest.  Its mode follows the manifest's
/// defaulting rule: present only for shared handlers, absent for exclusive
/// ones.
#[derive(Debug, Clone, PartialEq, Eq)]
pub struct DiscoveredHandler {
    pub name: String,
    pub mode: Option<Concurrency>,
}

/// The discovery manifest of one service: a static, introspectable
/// description, derivable with no invocation present.
pub struct DiscoveredService {
    pub kind: ServiceKind,
    pub name: String,
    pub handlers: Vec<DiscoveredHandler>,
}

/// Derives the discovery manifest from the static descriptors alone.
pub fn discover(d: &ServiceDescriptor) -> (m: DiscoveredService)
    ensures
        m.kind == d.kind,
        m.name@ == d.name@,
        m.handlers@.len() == d.handlers@.len(),
        forall|i: int| 0 <= i < d.handlers@.len() ==> {
            &&& (#[trigger] m.handlers@[i]).name@ == d.handlers@[i].name@
            &&& m.handlers@[i].mode == (if d.handlers@[i].concurrency is Shared {
                Option::Some(Concurrency::Shared)
            } else {
                Option::<Concurrency>::None
            })
        },
{
    let mut out: Vec<DiscoveredHandler> = Vec::new();
    let mut i: usize = 0;
    while i < d.handlers.len()
        invariant
            i <= d.handlers@.len(),
            out@.len() == i,
            forall|j: int| 0 <= j < i ==> {
                &&& (#[trigger] out@[j]).name@ == d.handlers@[j].name@
                &&& out@[j].mode == (if d.handlers@[j].concurrency is Shared {
                    Option::Some(Concurrency::Shared)
                } else {
                    Option::<Concurrency>::None
                })
            },
        decreases d.handlers@.len() - i,
    {
        let h = &d.handlers[i];
        let mode: Option<Concurrency> = match h.concurrency {
            Concurrency::Shared => Some(Concurrency::Shared),
            Concurrency::Exclusive => None,
        };
        out.push(DiscoveredHandler { name: h.name.clone(), mode });
        i = i + 1;
    }
    DiscoveredService { kind: d.kind, name: d.name.clone(), handlers: out }
}

/// One request to execute a named handler, as the orchestrator delivers it.
pub struct Invocation {
    pub service_name: String,
    pub handler_name: String,
    /// Present for object and workflow invocations: the instance.
    pub key: Option<String>,
    pub input: Payload,
    /// Entries recorded by earlier attempts of this invocation.
    pub journal: Vec<JournalEntry>,
}

/// The outward-facing result of one dispatched invocation, consumed by the
/// orchestrator to decide completion, retry, suspension or abort.
#[derive(Debug, Clone, PartialEq, Eq)]
pub enum InvocationOutcome {
    /// The handler completed; buffered state writes commit atomically.
    Success(Payload),
    /// Permanent failure; never retried; no state commits.
    Failure(TerminalErr),
    /// Transient failure; the orchestrator may re-invoke; no state commits.
    Retriable(String),
    /// Awaiting the result of a call; re-delivered once it is recorded.
    Suspended,
    /// The execution diverged from the recorded journal; blind re-invocation
    /// would only reproduce the divergence, so it is reported distinctly.
    NonDeterminism,
}

/// Everything one dispatched invocation hands back to the orchestrator.
pub struct DispatchOutput {
    /// Completion, failure, suspension, or detected non-determinism.
    pub outcome: InvocationOutcome,
    /// The entries this attempt appended: persisted by the orchestrator and
    /// replayed on re-delivery.
    pub new_entries: Vec<JournalEntry>,
    /// Delays the runtime shell must wait out before a retry.
    pub sleeps: Vec<u64>,
    /// The call whose result the invocation suspended for, if it suspended.
    pub pending_call: Option<CallRequest>,
    /// Fire-and-forget invocations to deliver.
    pub outbox: Vec<CallRequest>,
}

/// Packs a finished context and its classified outcome for the orchestrator.
pub fn output_from(ctx: InvocationCtx, outcome: InvocationOutcome) -> (out: DispatchOutput)
    ensures
        out.outcome == outcome,
        out.new_entries == ctx.appended,
        out.sleeps == ctx.sleeps,
        out.pending_call == ctx.pending_call,
        out.outbox == ctx.outbox,
{
    let InvocationCtx { appended, sleeps, pending_call, outbox, .. } = ctx;
    DispatchOutput { outcome, new_entries: appended, sleeps, pending_call, outbox }
}

/// Completes an invocation against the authoritative store: the buffered
/// writes in `journal` (the invocation's full journal) commit atomically
/// exactly when the outcome is success; any failed, suspended or diverged
/// invocation commits nothing.
pub fn complete_invocation(
    store: &mut StateStore,
    out: &DispatchOutput,
    journal: &Vec<JournalEntry>,
)
    requires
        old(store).wf(),
    ensures
        final(store).wf(),
        out.outcome is Success ==> forall|k: Seq<char>|
            final(store).val(k) == applied_val(*old(store), entry_views(journal@), k),
        !(out.outcome is Success) ==> *final(store) == *old(store),
{
    match &out.outcome {
        InvocationOutcome::Success(_) => commit_entries(store, journal),
        _ => {},
    }
}

/// Classifies what a handler body returned into the invocation's outcome.
pub fn outcome_of(res: Result<Payload, Interrupt>) -> (o: InvocationOutcome)
    ensures
        match res {
            Result::Ok(p) => o matches InvocationOutcome::Success(q) && q@ == p@,
            Result::Err(e) => match e@ {
                InterruptVal::Fail(FailureVal::Terminal(t)) => o
                    matches InvocationOutcome::Failure(u) && u@ == t,
                InterruptVal::Fail(FailureVal::Retriable(m)) => o
                    matches InvocationOutcome::Retriable(s) && s@ == m,
                InterruptVal::Suspend => o is Suspended,
                InterruptVal::NonDeterminism => o is NonDeterminism,
            },
        },
{
    match res {
        Ok(p) => InvocationOutcome::Success(p),
        Err(Interrupt::Fail(Failure::Terminal(t))) => InvocationOutcome::Failure(t),
        Err(Interrupt::Fail(Failure::Retriable(m))) => InvocationOutcome::Retriable(m),
        Err(Interrupt::Suspend) => InvocationOutcome::Suspended,
        Err(Interrupt::NonDeterminism) => InvocationOutcome::NonDeterminism,
    }
}

} // verus!
