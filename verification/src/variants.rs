//! Context variants: capability polymorphism over (service kind ×
//! concurrency mode).
//!
//! Every variant wraps the same invocation context; what differs is the set
//! of operations it exposes.  A shared variant has no write operation at all,
//! so calling one is a compile-time impossibility, not a runtime check.  All
//! variants share the side-effect journal, the call client and the
//! deterministic primitives.

use vstd::prelude::*;
use crate::context::{InvocationCtx, RunEnter};
use crate::errors::Interrupt;
use crate::journal::{opt_key_val, CallRequestVal, JournalEntryVal, OpOutcome};
use crate::payload::Payload;

verus! {

/// Context of a stateless service handler: no key, no state access.
pub struct Context {
    inner: InvocationCtx,
}

/// Context of an exclusive virtual-object handler: full state read/write.
pub struct ObjectContext {
    inner: InvocationCtx,
    key: String,
}

/// Context of a shared virtual-object handler: state reads only.
pub struct SharedObjectContext {
    inner: InvocationCtx,
    key: String,
}

/// Context of an exclusive workflow handler: full state read/write.
pub struct WorkflowContext {
    inner: InvocationCtx,
    key: String,
}

/// Context of a shared workflow handler: state reads only.
pub struct SharedWorkflowContext {
    inner: InvocationCtx,
    key: String,
}

impl Context {
    /// The wrapped invocation context.
    pub closed spec fn ctx(self) -> InvocationCtx {
        self.inner
    }

    pub fn new(inner: InvocationCtx) -> (r: Context)
        ensures
            r.ctx() == inner,
    {
        Context { inner }
    }

    pub fn into_inner(self) -> (r: InvocationCtx)
        ensures
            r == self.ctx(),
    {
        self.inner
    }

    /// Enters a side effect; see [`InvocationCtx::run_enter`].
    pub fn run_enter(&mut self) -> (r: RunEnter)
        requires
            old(self).ctx().wf(),
        ensures
            final(self).ctx().wf(),
            InvocationCtx::run_enter_post(old(self).ctx(), final(self).ctx(), r),
    {
        self.inner.run_enter()
    }

    /// Commits a fresh side-effect outcome; see [`InvocationCtx::run_commit`].
    pub fn run_commit(&mut self, outcome: OpOutcome) -> (r: OpOutcome)
        requires
            old(self).ctx().wf(),
            !old(self).ctx().poisoned,
            !old(self).ctx().replaying(),
        ensures
            final(self).ctx().wf(),
            r@ == outcome@,
            final(self).ctx().log() == old(self).ctx().log().push(
                JournalEntryVal::RunResult { outcome: outcome@ },
            ),
            final(self).ctx().pos == old(self).ctx().pos,
            final(self).ctx().store == old(self).ctx().store,
            final(self).ctx().touched == old(self).ctx().touched,
            !final(self).ctx().poisoned,
            InvocationCtx::same_io(old(self).ctx(), final(self).ctx()),
    {
        self.inner.run_commit(outcome)
    }

    /// Draws a deterministic random value; see [`InvocationCtx::rand_u64`].
    pub fn rand_u64(&mut self) -> (r: Result<u64, Interrupt>)
        requires
            old(self).ctx().wf(),
        ensures
            final(self).ctx().wf(),
            InvocationCtx::rand_post(old(self).ctx(), final(self).ctx(), r),
    {
        self.inner.rand_u64()
    }

    /// Waits durably; see [`InvocationCtx::sleep`].
    pub fn sleep(&mut self, millis: u64) -> (r: Result<(), Interrupt>)
        requires
            old(self).ctx().wf(),
        ensures
            final(self).ctx().wf(),
            InvocationCtx::sleep_post(old(self).ctx(), final(self).ctx(), millis, r),
    {
        self.inner.sleep(millis)
    }

    /// Calls another handler; see [`InvocationCtx::call`].
    pub fn call(
        &mut self,
        service: String,
        key: Option<String>,
        handler: String,
        input: Payload,
    ) -> (r: Result<Payload, Interrupt>)
        requires
            old(self).ctx().wf(),
            old(self).ctx().pending_call is None,
        ensures
            final(self).ctx().wf(),
            InvocationCtx::call_post(
                old(self).ctx(),
                final(self).ctx(),
                CallRequestVal {
                    service: service@,
                    key: opt_key_val(key),
                    handler: handler@,
                    input: input@,
                },
                r,
            ),
    {
        self.inner.call(service, key, handler, input)
    }
}

impl ObjectContext {
    /// The wrapped invocation context.
    pub closed spec fn ctx(self) -> InvocationCtx {
        self.inner
    }

    /// The key of the object instance.
    pub closed spec fn spec_key(self) -> Seq<char> {
        self.key@
    }

    pub fn new(inner: InvocationCtx, key: String) -> (r: ObjectContext)
        ensures
            r.ctx() == inner,
            r.spec_key() == key@,
    {
        ObjectContext { inner, key }
    }

    pub fn into_inner(self) -> (r: InvocationCtx)
        ensures
            r == self.ctx(),
    {
        self.inner
    }

    /// Reads a state key; see [`InvocationCtx::get`].
    pub fn get(&mut self, key: &String) -> (r: Result<Option<Payload>, Interrupt>)
        requires
            old(self).ctx().wf(),
        ensures
            final(self).ctx().wf(),
            final(self).spec_key() == old(self).spec_key(),
            InvocationCtx::get_post(old(self).ctx(), final(self).ctx(), key@, r),
    {
        self.inner.get(key)
    }

    /// Writes a state key; see [`InvocationCtx::set`].
    pub fn set(&mut self, key: String, value: Payload) -> (r: Result<(), Interrupt>)
        requires
            old(self).ctx().wf(),
        ensures
            final(self).ctx().wf(),
            final(self).spec_key() == old(self).spec_key(),
            InvocationCtx::write_post(
                old(self).ctx(),
                final(self).ctx(),
                key@,
                JournalEntryVal::StateSet { key: key@, value: value@ },
                r,
            ),
            r is Ok ==> {
                &&& final(self).ctx().state_val(key@) == Option::Some(value@)
                &&& forall|k: Seq<char>|
                    k != key@ ==> final(self).ctx().state_val(k) == old(self).ctx().state_val(k)
                &&& final(self).ctx().is_touched(key@)
                &&& forall|k: Seq<char>|
                    k != key@ ==> final(self).ctx().is_touched(k) == old(self).ctx().is_touched(k)
            },
    {
        self.inner.set(key, value)
    }

    /// Clears a state key; see [`InvocationCtx::clear`].
    pub fn clear(&mut self, key: &String) -> (r: Result<(), Interrupt>)
        requires
            old(self).ctx().wf(),
        ensures
            final(self).ctx().wf(),
            final(self).spec_key() == old(self).spec_key(),
            InvocationCtx::write_post(
                old(self).ctx(),
                final(self).ctx(),
                key@,
                JournalEntryVal::StateClear { key: key@ },
                r,
            ),
            r is Ok ==> {
                &&& final(self).ctx().state_val(key@) is None
                &&& forall|k: Seq<char>|
                    k != key@ ==> final(self).ctx().state_val(k) == old(self).ctx().state_val(k)
                &&& final(self).ctx().is_touched(key@)
                &&& forall|k: Seq<char>|
                    k != key@ ==> final(self).ctx().is_touched(k) == old(self).ctx().is_touched(k)
            },
    {
        self.inner.clear(key)
    }

    /// Clears every state key; see [`InvocationCtx::clear_all`].
    pub fn clear_all(&mut self) -> (r: Result<(), Interrupt>)
        requires
            old(self).ctx().wf(),
        ensures
            final(self).ctx().wf(),
            final(self).spec_key() == old(self).spec_key(),
            InvocationCtx::write_post(
                old(self).ctx(),
                final(self).ctx(),
                Seq::<char>::empty(),
                JournalEntryVal::StateClearAll,
                r,
            ),
            r is Ok ==> forall|k: Seq<char>| final(self).ctx().state_val(k) is None,
    {
        self.inner.clear_all()
    }

    /// Enters a side effect; see [`InvocationCtx::run_enter`].
    pub fn run_enter(&mut self) -> (r: RunEnter)
        requires
            old(self).ctx().wf(),
        ensures
            final(self).ctx().wf(),
            final(self).spec_key() == old(self).spec_key(),
            InvocationCtx::run_enter_post(old(self).ctx(), final(self).ctx(), r),
    {
        self.inner.run_enter()
    }

    /// Commits a fresh side-effect outcome; see [`InvocationCtx::run_commit`].
    pub fn run_commit(&mut self, outcome: OpOutcome) -> (r: OpOutcome)
        requires
            old(self).ctx().wf(),
            !old(self).ctx().poisoned,
            !old(self).ctx().replaying(),
        ensures
            final(self).ctx().wf(),
            final(self).spec_key() == old(self).spec_key(),
            r@ == outcome@,
            final(self).ctx().log() == old(self).ctx().log().push(
                JournalEntryVal::RunResult { outcome: outcome@ },
            ),
            final(self).ctx().pos == old(self).ctx().pos,
            final(self).ctx().store == old(self).ctx().store,
            final(self).ctx().touched == old(self).ctx().touched,
            !final(self).ctx().poisoned,
            InvocationCtx::same_io(old(self).ctx(), final(self).ctx()),
    {
        self.inner.run_commit(outcome)
    }

    /// Draws a deterministic random value; see [`InvocationCtx::rand_u64`].
    pub fn rand_u64(&mut self) -> (r: Result<u64, Interrupt>)
        requires
            old(self).ctx().wf(),
        ensures
            final(self).ctx().wf(),
            final(self).spec_key() == old(self).spec_key(),
            InvocationCtx::rand_post(old(self).ctx(), final(self).ctx(), r),
    {
        self.inner.rand_u64()
    }

    /// Waits durably; see [`InvocationCtx::sleep`].
    pub fn sleep(&mut self, millis: u64) -> (r: Result<(), Interrupt>)
        requires
            old(self).ctx().wf(),
        ensures
            final(self).ctx().wf(),
            final(self).spec_key() == old(self).spec_key(),
            InvocationCtx::sleep_post(old(self).ctx(), final(self).ctx(), millis, r),
    {
        self.inner.sleep(millis)
    }

    /// Notes a local retry delay; see [`InvocationCtx::request_wait`].
    pub fn request_wait(&mut self, millis: u64)
        requires
            old(self).ctx().wf(),
        ensures
            final(self).ctx().wf(),
            final(self).spec_key() == old(self).spec_key(),
            final(self).ctx().sleeps@ == old(self).ctx().sleeps@.push(millis),
            final(self).ctx().replay == old(self).ctx().replay,
            final(self).ctx().pos == old(self).ctx().pos,
            final(self).ctx().appended == old(self).ctx().appended,
            final(self).ctx().store == old(self).ctx().store,
            final(self).ctx().touched == old(self).ctx().touched,
            final(self).ctx().poisoned == old(self).ctx().poisoned,
            final(self).ctx().rand_seed == old(self).ctx().rand_seed,
            final(self).ctx().pending_call == old(self).ctx().pending_call,
            final(self).ctx().outbox == old(self).ctx().outbox,
    {
        self.inner.request_wait(millis)
    }

    /// Calls another handler; see [`InvocationCtx::call`].
    pub fn call(
        &mut self,
        service: String,
        key: Option<String>,
        handler: String,
        input: Payload,
    ) -> (r: Result<Payload, Interrupt>)
        requires
            old(self).ctx().wf(),
            old(self).ctx().pending_call is None,
        ensures
            final(self).ctx().wf(),
            final(self).spec_key() == old(self).spec_key(),
            InvocationCtx::call_post(
                old(self).ctx(),
                final(self).ctx(),
                CallRequestVal {
                    service: service@,
                    key: opt_key_val(key),
                    handler: handler@,
                    input: input@,
                },
                r,
            ),
    {
        self.inner.call(service, key, handler, input)
    }

    /// Sends a fire-and-forget invocation; see [`InvocationCtx::send`].
    pub fn send(
        &mut self,
        service: String,
        key: Option<String>,
        handler: String,
        input: Payload,
    ) -> (r: Result<(), Interrupt>)
        requires
            old(self).ctx().wf(),
        ensures
            final(self).ctx().wf(),
            final(self).spec_key() == old(self).spec_key(),
            old(self).ctx().poisoned ==> (r matches Err(e) && e@ is NonDeterminism),
            !old(self).ctx().poisoned ==> (r matches Ok(u)
                && final(self).ctx().outbox@.len() == old(self).ctx().outbox@.len() + 1),
    {
        self.inner.send(service, key, handler, input)
    }
}

impl SharedObjectContext {
    /// The wrapped invocation context.
    pub closed spec fn ctx(self) -> InvocationCtx {
        self.inner
    }

    /// The key of the object instance.
    pub closed spec fn spec_key(self) -> Seq<char> {
        self.key@
    }

    pub fn new(inner: InvocationCtx, key: String) -> (r: SharedObjectContext)
        ensures
            r.ctx() == inner,
            r.spec_key() == key@,
    {
        SharedObjectContext { inner, key }
    }

    pub fn into_inner(self) -> (r: InvocationCtx)
        ensures
            r == self.ctx(),
    {
        self.inner
    }

    /// Reads a state key; the only state operation a shared handler has.
    pub fn get(&mut self, key: &String) -> (r: Result<Option<Payload>, Interrupt>)
        requires
            old(self).ctx().wf(),
        ensures
            final(self).ctx().wf(),
            final(self).spec_key() == old(self).spec_key(),
            InvocationCtx::get_post(old(self).ctx(), final(self).ctx(), key@, r),
    {
        self.inner.get(key)
    }

    /// Enters a side effect; see [`InvocationCtx::run_enter`].
    pub fn run_enter(&mut self) -> (r: RunEnter)
        requires
            old(self).ctx().wf(),
        ensures
            final(self).ctx().wf(),
            final(self).spec_key() == old(self).spec_key(),
            InvocationCtx::run_enter_post(old(self).ctx(), final(self).ctx(), r),
    {
        self.inner.run_enter()
    }

    /// Commits a fresh side-effect outcome; see [`InvocationCtx::run_commit`].
    pub fn run_commit(&mut self, outcome: OpOutcome) -> (r: OpOutcome)
        requires
            old(self).ctx().wf(),
            !old(self).ctx().poisoned,
            !old(self).ctx().replaying(),
        ensures
            final(self).ctx().wf(),
            final(self).spec_key() == old(self).spec_key(),
            r@ == outcome@,
            final(self).ctx().log() == old(self).ctx().log().push(
                JournalEntryVal::RunResult { outcome: outcome@ },
            ),
            InvocationCtx::same_io(old(self).ctx(), final(self).ctx()),
    {
        self.inner.run_commit(outcome)
    }

    /// Draws a deterministic random value; see [`InvocationCtx::rand_u64`].
    pub fn rand_u64(&mut self) -> (r: Result<u64, Interrupt>)
        requires
            old(self).ctx().wf(),
        ensures
            final(self).ctx().wf(),
            final(self).spec_key() == old(self).spec_key(),
            InvocationCtx::rand_post(old(self).ctx(), final(self).ctx(), r),
    {
        self.inner.rand_u64()
    }
}

impl WorkflowContext {
    /// The wrapped invocation context.
    pub closed spec fn ctx(self) -> InvocationCtx {
        self.inner
    }

    /// The key of the workflow instance.
    pub closed spec fn spec_key(self) -> Seq<char> {
        self.key@
    }

    pub fn new(inner: InvocationCtx, key: String) -> (r: WorkflowContext)
        ensures
            r.ctx() == inner,
            r.spec_key() == key@,
    {
        WorkflowContext { inner, key }
    }

    pub fn into_inner(self) -> (r: InvocationCtx)
        ensures
            r == self.ctx(),
    {
        self.inner
    }

    /// Reads a state key; see [`InvocationCtx::get`].
    pub fn get(&mut self, key: &String) -> (r: Result<Option<Payload>, Interrupt>)
        requires
            old(self).ctx().wf(),
        ensures
            final(self).ctx().wf(),
            final(self).spec_key() == old(self).spec_key(),
            InvocationCtx::get_post(old(self).ctx(), final(self).ctx(), key@, r),
    {
        self.inner.get(key)
    }

    /// Writes a state key; see [`InvocationCtx::set`].
    pub fn set(&mut self, key: String, value: Payload) -> (r: Result<(), Interrupt>)
        requires
            old(self).ctx().wf(),
        ensures
            final(self).ctx().wf(),
            final(self).spec_key() == old(self).spec_key(),
            InvocationCtx::write_post(
                old(self).ctx(),
                final(self).ctx(),
                key@,
                JournalEntryVal::StateSet { key: key@, value: value@ },
                r,
            ),
            r is Ok ==> final(self).ctx().state_val(key@) == Option::Some(value@),
    {
        self.inner.set(key, value)
    }

    /// Enters a side effect; see [`InvocationCtx::run_enter`].
    pub fn run_enter(&mut self) -> (r: RunEnter)
        requires
            old(self).ctx().wf(),
        ensures
            final(self).ctx().wf(),
            final(self).spec_key() == old(self).spec_key(),
            InvocationCtx::run_enter_post(old(self).ctx(), final(self).ctx(), r),
    {
        self.inner.run_enter()
    }

    /// Commits a fresh side-effect outcome; see [`InvocationCtx::run_commit`].
    pub fn run_commit(&mut self, outcome: OpOutcome) -> (r: OpOutcome)
        requires
            old(self).ctx().wf(),
            !old(self).ctx().poisoned,
            !old(self).ctx().replaying(),
        ensures
            final(self).ctx().wf(),
            final(self).spec_key() == old(self).spec_key(),
            r@ == outcome@,
            final(self).ctx().log() == old(self).ctx().log().push(
                JournalEntryVal::RunResult { outcome: outcome@ },
            ),
            InvocationCtx::same_io(old(self).ctx(), final(self).ctx()),
    {
        self.inner.run_commit(outcome)
    }
}

impl SharedWorkflowContext {
    /// The wrapped invocation context.
    pub closed spec fn ctx(self) -> InvocationCtx {
        self.inner
    }

    /// The key of the workflow instance.
    pub closed spec fn spec_key(self) -> Seq<char> {
        self.key@
    }

    pub fn new(inner: InvocationCtx, key: String) -> (r: SharedWorkflowContext)
        ensures
            r.ctx() == inner,
            r.spec_key() == key@,
    {
        SharedWorkflowContext { inner, key }
    }

    pub fn into_inner(self) -> (r: InvocationCtx)
        ensures
            r == self.ctx(),
    {
        self.inner
    }

    /// Reads a state key; the only state operation a shared handler has.
    pub fn get(&mut self, key: &String) -> (r: Result<Option<Payload>, Interrupt>)
        requires
            old(self).ctx().wf(),
        ensures
            final(self).ctx().wf(),
            final(self).spec_key() == old(self).spec_key(),
            InvocationCtx::get_post(old(self).ctx(), final(self).ctx(), key@, r),
    {
        self.inner.get(key)
    }

    /// Enters a side effect; see [`InvocationCtx::run_enter`].
    pub fn run_enter(&mut self) -> (r: RunEnter)
        requires
            old(self).ctx().wf(),
        ensures
            final(self).ctx().wf(),
            final(self).spec_key() == old(self).spec_key(),
            InvocationCtx::run_enter_post(old(self).ctx(), final(self).ctx(), r),
    {
        self.inner.run_enter()
    }
}

} // verus!
