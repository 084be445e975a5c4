//! The durable execution context bound to one invocation.
//!
//! The context composes the state store, the side-effect journal, the call
//! client and the deterministic primitives.  Every durable operation is one
//! journal step: while recorded entries remain, the operation consumes the
//! next entry and returns its recorded outcome instead of re-executing;
//! once the recorded journal is exhausted, the operation executes freshly
//! and appends exactly one new entry.  An operation whose kind diverges from
//! the recorded entry poisons the context: that invocation can only end in a
//! non-determinism outcome, which no retry can recover.

use vstd::prelude::*;
use crate::errors::{Failure, FailureVal, Interrupt, InterruptVal};
use crate::journal::{entry_views, CallRequest, CallRequestVal, JournalEntry, JournalEntryVal,
    OpOutcome, OpOutcomeVal};
use crate::payload::{opt_payload_val, Payload, PayloadVal};
use crate::state::StateStore;

verus! {

/// A key occurs in a sequence of touched keys.
pub open spec fn touched_in(s: Seq<String>, k: Seq<char>) -> bool {
    exists|i: int| 0 <= i < s.len() && s[i]@ == k
}

/// Pushing a key touches that key and nothing else.
pub proof fn lemma_touched_push(s: Seq<String>, x: String, k: Seq<char>)
    ensures
        touched_in(s.push(x), k) == (touched_in(s, k) || x@ == k),
{
    if touched_in(s, k) {
        let i = choose|i: int| 0 <= i < s.len() && s[i]@ == k;
        assert(s.push(x)[i]@ == k);
    }
    if x@ == k {
        assert(s.push(x)[s.len() as int]@ == k);
    }
    if touched_in(s.push(x), k) {
        let i = choose|i: int| 0 <= i < s.push(x).len() && s.push(x)[i]@ == k;
        if i < s.len() {
            assert(s[i]@ == k);
        } else {
            assert(s.push(x)[i] == x);
        }
    }
}

/// The execution context of one invocation.
pub struct InvocationCtx {
    /// Journal entries recorded by earlier attempts, consumed in order.
    pub replay: Vec<JournalEntry>,
    /// Index of the next recorded entry to consume.
    pub pos: usize,
    /// Entries appended by fresh execution in this attempt.
    pub appended: Vec<JournalEntry>,
    /// Working view of the instance's state: the snapshot plus this
    /// invocation's buffered writes.
    pub store: StateStore,
    /// Keys already read or written in this invocation: further reads are
    /// served from the working view without a journal step.
    pub touched: Vec<String>,
    /// Set once the execution path diverged from the recorded journal.
    pub poisoned: bool,
    /// Seed of the deterministic random source.
    pub rand_seed: u64,
    /// Delays, in milliseconds, the runtime shell must wait out.
    pub sleeps: Vec<u64>,
    /// The call whose result this invocation suspended for, if any.
    pub pending_call: Option<CallRequest>,
    /// Fire-and-forget invocations issued by this invocation.
    pub outbox: Vec<CallRequest>,
}

impl InvocationCtx {
    /// Structural invariant of a context.
    pub open spec fn wf(self) -> bool {
        &&& self.pos <= self.replay@.len()
        &&& self.store.wf()
    }

    /// Recorded entries remain to consume.
    pub open spec fn replaying(self) -> bool {
        self.pos < self.replay@.len()
    }

    /// The context executes freshly: not poisoned, nothing left to replay.
    pub open spec fn fresh(self) -> bool {
        &&& !self.poisoned
        &&& !self.replaying()
    }

    /// The value of the next recorded entry.
    pub open spec fn next_entry(self) -> JournalEntryVal {
        self.replay@[self.pos as int]@
    }

    /// The entries appended by this attempt, as values.
    pub open spec fn log(self) -> Seq<JournalEntryVal> {
        entry_views(self.appended@)
    }

    /// The recorded journal, as values.
    pub open spec fn rlog(self) -> Seq<JournalEntryVal> {
        entry_views(self.replay@)
    }

    /// The working value of state key `k`.
    pub open spec fn state_val(self, k: Seq<char>) -> Option<PayloadVal> {
        self.store.val(k)
    }

    /// Key `k` was already read or written in this invocation.
    pub open spec fn is_touched(self, k: Seq<char>) -> bool {
        touched_in(self.touched@, k)
    }

    /// The fields that no state or journal step changes.
    pub open spec fn same_io(pre: InvocationCtx, post: InvocationCtx) -> bool {
        &&& post.replay == pre.replay
        &&& post.rand_seed == pre.rand_seed
        &&& post.sleeps == pre.sleeps
        &&& post.pending_call == pre.pending_call
        &&& post.outbox == pre.outbox
    }

    /// The operation found the context poisoned, or poisoned it: nothing
    /// else changes.
    pub open spec fn diverged(pre: InvocationCtx, post: InvocationCtx) -> bool {
        &&& post.poisoned
        &&& post.replay == pre.replay
        &&& post.pos == pre.pos
        &&& post.appended == pre.appended
        &&& post.store == pre.store
        &&& post.touched == pre.touched
        &&& post.rand_seed == pre.rand_seed
        &&& post.sleeps == pre.sleeps
        &&& post.pending_call == pre.pending_call
        &&& post.outbox == pre.outbox
    }

    /// A fresh context over a recorded journal, a state snapshot and a
    /// deterministic random seed, all supplied by the orchestrator.
    pub fn new(journal: Vec<JournalEntry>, snapshot: StateStore, seed: u64) -> (r: InvocationCtx)
        requires
            snapshot.wf(),
        ensures
            r.wf(),
            r.replay == journal,
            r.pos == 0,
            r.log() =~= Seq::<JournalEntryVal>::empty(),
            r.store == snapshot,
            forall|k: Seq<char>| !r.is_touched(k),
            !r.poisoned,
            r.rand_seed == seed,
            r.sleeps@ =~= Seq::<u64>::empty(),
            r.pending_call is None,
            r.outbox@ =~= Seq::<CallRequest>::empty(),
    {
        InvocationCtx {
            replay: journal,
            pos: 0,
            appended: Vec::new(),
            store: snapshot,
            touched: Vec::new(),
            poisoned: false,
            rand_seed: seed,
            sleeps: Vec::new(),
            pending_call: None,
            outbox: Vec::new(),
        }
    }

    fn is_touched_exec(&self, key: &String) -> (r: bool)
        ensures
            r == self.is_touched(key@),
    {
        let mut i: usize = 0;
        while i < self.touched.len()
            invariant
                i <= self.touched@.len(),
                forall|j: int| 0 <= j < i ==> self.touched@[j]@ != key@,
            decreases self.touched@.len() - i,
        {
            if self.touched[i] == *key {
                return true;
            }
            i = i + 1;
        }
        false
    }

    /// What `get` guarantees: a read after a write (or after an earlier read)
    /// of the same key in the same invocation is served from the working view
    /// with no journal step; the first read consumes the recorded entry when
    /// replaying, or appends one when fresh.
    pub open spec fn get_post(
        pre: InvocationCtx,
        post: InvocationCtx,
        key: Seq<char>,
        r: Result<Option<Payload>, Interrupt>,
    ) -> bool {
        if pre.poisoned {
            &&& r matches Err(e) && e@ is NonDeterminism
            &&& Self::diverged(pre, post)
        } else if pre.is_touched(key) {
            &&& r matches Ok(v) && opt_payload_val(v) == pre.state_val(key)
            &&& post == pre
        } else if pre.replaying() {
            match pre.next_entry() {
                JournalEntryVal::StateGet { key: k2, found } => {
                    if k2 == key {
                        &&& r matches Ok(v) && opt_payload_val(v) == found
                        &&& post.pos == pre.pos + 1
                        &&& post.appended == pre.appended
                        &&& post.state_val(key) == found
                        &&& forall|k: Seq<char>|
                            k != key ==> post.state_val(k) == pre.state_val(k)
                        &&& post.is_touched(key)
                        &&& forall|k: Seq<char>|
                            k != key ==> post.is_touched(k) == pre.is_touched(k)
                        &&& !post.poisoned
                        &&& Self::same_io(pre, post)
                    } else {
                        &&& r matches Err(e) && e@ is NonDeterminism
                        &&& Self::diverged(pre, post)
                    }
                },
                _ => {
                    &&& r matches Err(e) && e@ is NonDeterminism
                    &&& Self::diverged(pre, post)
                },
            }
        } else {
            &&& r matches Ok(v) && opt_payload_val(v) == pre.state_val(key)
            &&& post.pos == pre.pos
            &&& post.log() == pre.log().push(
                JournalEntryVal::StateGet { key, found: pre.state_val(key) },
            )
            &&& post.store == pre.store
            &&& post.is_touched(key)
            &&& forall|k: Seq<char>| k != key ==> post.is_touched(k) == pre.is_touched(k)
            &&& !post.poisoned
            &&& Self::same_io(pre, post)
        }
    }

    /// Reads a state key.
    pub fn get(&mut self, key: &String) -> (r: Result<Option<Payload>, Interrupt>)
        requires
            old(self).wf(),
        ensures
            final(self).wf(),
            Self::get_post(*old(self), *final(self), key@, r),
    {
        if self.poisoned {
            return Err(Interrupt::NonDeterminism);
        }
        if self.is_touched_exec(key) {
            return Ok(self.store.get(key));
        }
        if self.pos < self.replay.len() {
            let recorded: Option<Option<Payload>> = match &self.replay[self.pos] {
                JournalEntry::StateGet { key: k2, found } => {
                    if *k2 == *key {
                        match found {
                            Some(p) => Some(Some(p.dup())),
                            None => Some(None),
                        }
                    } else {
                        None
                    }
                },
                _ => None,
            };
            match recorded {
                Some(found) => {
                    self.pos = self.pos + 1;
                    let ghost touched0 = self.touched@;
                    match &found {
                        Some(p) => self.store.set(key.clone(), p.dup()),
                        None => self.store.clear(key),
                    }
                    let tk = key.clone();
                    let ghost tkv = tk;
                    self.touched.push(tk);
                    proof {
                        lemma_touched_push(touched0, tkv, key@);
                        assert forall|k: Seq<char>| k != key@
                            implies self.is_touched(k) == touched_in(touched0, k) by {
                            lemma_touched_push(touched0, tkv, k);
                        }
                    }
                    Ok(found)
                },
                None => {
                    self.poisoned = true;
                    Err(Interrupt::NonDeterminism)
                },
            }
        } else {
            let v = self.store.get(key);
            let found = match &v {
                Some(p) => Some(p.dup()),
                None => None,
            };
            let ghost appended0 = self.appended@;
            let ghost touched0 = self.touched@;
            let ghost val0 = self.state_val(key@);
            self.appended.push(JournalEntry::StateGet { key: key.clone(), found });
            let tk = key.clone();
            let ghost tkv = tk;
            self.touched.push(tk);
            proof {
                assert(self.log() =~= entry_views(appended0).push(
                    JournalEntryVal::StateGet { key: key@, found: val0 },
                ));
                lemma_touched_push(touched0, tkv, key@);
                assert forall|k: Seq<char>| k != key@
                    implies self.is_touched(k) == touched_in(touched0, k) by {
                    lemma_touched_push(touched0, tkv, k);
                }
            }
            Ok(v)
        }
    }

    /// What a journal step for a write-like operation guarantees, given the
    /// entry value the step must produce and the working view after it.
    pub open spec fn write_post(
        pre: InvocationCtx,
        post: InvocationCtx,
        key: Seq<char>,
        entry: JournalEntryVal,
        r: Result<(), Interrupt>,
    ) -> bool {
        if pre.poisoned {
            &&& r matches Err(e) && e@ is NonDeterminism
            &&& Self::diverged(pre, post)
        } else if pre.replaying() {
            if pre.next_entry() == entry {
                &&& r matches Ok(u)
                &&& post.pos == pre.pos + 1
                &&& post.appended == pre.appended
                &&& !post.poisoned
                &&& Self::same_io(pre, post)
            } else {
                &&& r matches Err(e) && e@ is NonDeterminism
                &&& Self::diverged(pre, post)
            }
        } else {
            &&& r matches Ok(u)
            &&& post.pos == pre.pos
            &&& post.log() == pre.log().push(entry)
            &&& !post.poisoned
            &&& Self::same_io(pre, post)
        }
    }

    /// Writes a state key.  The write is buffered: it is visible to later
    /// reads in this invocation at once, and becomes durable only when the
    /// invocation completes successfully.
    pub fn set(&mut self, key: String, value: Payload) -> (r: Result<(), Interrupt>)
        requires
            old(self).wf(),
        ensures
            final(self).wf(),
            Self::write_post(
                *old(self),
                *final(self),
                key@,
                JournalEntryVal::StateSet { key: key@, value: value@ },
                r,
            ),
            r is Ok ==> {
                &&& final(self).state_val(key@) == Option::Some(value@)
                &&& forall|k: Seq<char>|
                    k != key@ ==> final(self).state_val(k) == old(self).state_val(k)
                &&& final(self).is_touched(key@)
                &&& forall|k: Seq<char>|
                    k != key@ ==> final(self).is_touched(k) == old(self).is_touched(k)
            },
    {
        if self.poisoned {
            return Err(Interrupt::NonDeterminism);
        }
        if self.pos < self.replay.len() {
            let matched: bool = match &self.replay[self.pos] {
                JournalEntry::StateSet { key: k2, value: v2 } => {
                    *k2 == key && v2.same_val(&value)
                },
                _ => false,
            };
            if !matched {
                self.poisoned = true;
                return Err(Interrupt::NonDeterminism);
            }
            self.pos = self.pos + 1;
        } else {
            let ghost appended0 = self.appended@;
            let entry = JournalEntry::StateSet { key: key.clone(), value: value.dup() };
            let ghost ev = entry@;
            self.appended.push(entry);
            proof {
                assert(self.log() =~= entry_views(appended0).push(ev));
            }
        }
        let ghost touched0 = self.touched@;
        let ghost keyv = key@;
        self.store.set(key.clone(), value);
        let ghost tkv = key;
        self.touched.push(key);
        proof {
            lemma_touched_push(touched0, tkv, keyv);
            assert forall|k: Seq<char>| k != keyv
                implies self.is_touched(k) == touched_in(touched0, k) by {
                lemma_touched_push(touched0, tkv, k);
            }
        }
        Ok(())
    }

    /// Clears a state key: later reads in this invocation find it absent.
    pub fn clear(&mut self, key: &String) -> (r: Result<(), Interrupt>)
        requires
            old(self).wf(),
        ensures
            final(self).wf(),
            Self::write_post(
                *old(self),
                *final(self),
                key@,
                JournalEntryVal::StateClear { key: key@ },
                r,
            ),
            r is Ok ==> {
                &&& final(self).state_val(key@) is None
                &&& forall|k: Seq<char>|
                    k != key@ ==> final(self).state_val(k) == old(self).state_val(k)
                &&& final(self).is_touched(key@)
                &&& forall|k: Seq<char>|
                    k != key@ ==> final(self).is_touched(k) == old(self).is_touched(k)
            },
    {
        if self.poisoned {
            return Err(Interrupt::NonDeterminism);
        }
        if self.pos < self.replay.len() {
            let matched: bool = match &self.replay[self.pos] {
                JournalEntry::StateClear { key: k2 } => *k2 == *key,
                _ => false,
            };
            if !matched {
                self.poisoned = true;
                return Err(Interrupt::NonDeterminism);
            }
            self.pos = self.pos + 1;
        } else {
            let ghost appended0 = self.appended@;
            let entry = JournalEntry::StateClear { key: key.clone() };
            let ghost ev = entry@;
            self.appended.push(entry);
            proof {
                assert(self.log() =~= entry_views(appended0).push(ev));
            }
        }
        let ghost touched0 = self.touched@;
        self.store.clear(key);
        let tk = key.clone();
        let ghost tkv = tk;
        self.touched.push(tk);
        proof {
            lemma_touched_push(touched0, tkv, key@);
            assert forall|k: Seq<char>| k != key@
                implies self.is_touched(k) == touched_in(touched0, k) by {
                lemma_touched_push(touched0, tkv, k);
            }
        }
        Ok(())
    }

    /// Clears every state key of the instance.
    pub fn clear_all(&mut self) -> (r: Result<(), Interrupt>)
        requires
            old(self).wf(),
        ensures
            final(self).wf(),
            Self::write_post(
                *old(self),
                *final(self),
                Seq::<char>::empty(),
                JournalEntryVal::StateClearAll,
                r,
            ),
            r is Ok ==> forall|k: Seq<char>| final(self).state_val(k) is None,
            r is Ok ==> final(self).touched == old(self).touched,
    {
        if self.poisoned {
            return Err(Interrupt::NonDeterminism);
        }
        if self.pos < self.replay.len() {
            let matched: bool = match &self.replay[self.pos] {
                JournalEntry::StateClearAll => true,
                _ => false,
            };
            if !matched {
                self.poisoned = true;
                return Err(Interrupt::NonDeterminism);
            }
            self.pos = self.pos + 1;
        } else {
            let ghost appended0 = self.appended@;
            self.appended.push(JournalEntry::StateClearAll);
            proof {
                assert(self.log() =~= entry_views(appended0).push(JournalEntryVal::StateClearAll));
            }
        }
        self.store.clear_all();
        Ok(())
    }

    /// One recorded entry was consumed; nothing else changed.
    pub open spec fn consumed_one(pre: InvocationCtx, post: InvocationCtx) -> bool {
        &&& post.pos == pre.pos + 1
        &&& post.replay == pre.replay
        &&& post.appended == pre.appended
        &&& post.store == pre.store
        &&& post.touched == pre.touched
        &&& post.poisoned == pre.poisoned
        &&& post.rand_seed == pre.rand_seed
        &&& post.sleeps == pre.sleeps
        &&& post.pending_call == pre.pending_call
        &&& post.outbox == pre.outbox
    }

    /// What entering a side effect guarantees: a recorded outcome is returned
    /// as it stands, without executing anything; only an exhausted journal
    /// lets the closure run.
    pub open spec fn run_enter_post(pre: InvocationCtx, post: InvocationCtx, r: RunEnter) -> bool {
        if pre.poisoned {
            &&& r matches RunEnter::Stop(e) && e@ is NonDeterminism
            &&& Self::diverged(pre, post)
        } else if pre.replaying() {
            match pre.next_entry() {
                JournalEntryVal::RunResult { outcome } => {
                    &&& r matches RunEnter::Recorded(o) && o@ == outcome
                    &&& Self::consumed_one(pre, post)
                },
                _ => {
                    &&& r matches RunEnter::Stop(e) && e@ is NonDeterminism
                    &&& Self::diverged(pre, post)
                },
            }
        } else {
            &&& r is Fresh
            &&& post == pre
        }
    }

    /// Enters a side effect: returns the recorded outcome when one exists at
    /// the current position, or `Fresh` when the closure must be executed,
    /// after which the caller commits exactly one outcome with
    /// [`InvocationCtx::run_commit`].
    pub fn run_enter(&mut self) -> (r: RunEnter)
        requires
            old(self).wf(),
        ensures
            final(self).wf(),
            Self::run_enter_post(*old(self), *final(self), r),
    {
        if self.poisoned {
            return RunEnter::Stop(Interrupt::NonDeterminism);
        }
        if self.pos < self.replay.len() {
            let recorded: Option<OpOutcome> = match &self.replay[self.pos] {
                JournalEntry::RunResult { outcome } => Some(outcome.dup()),
                _ => None,
            };
            match recorded {
                Some(o) => {
                    self.pos = self.pos + 1;
                    RunEnter::Recorded(o)
                },
                None => {
                    self.poisoned = true;
                    RunEnter::Stop(Interrupt::NonDeterminism)
                },
            }
        } else {
            RunEnter::Fresh
        }
    }

    /// Commits the single durable outcome of a freshly executed side effect
    /// and hands it back.
    pub fn run_commit(&mut self, outcome: OpOutcome) -> (r: OpOutcome)
        requires
            old(self).wf(),
            !old(self).poisoned,
            !old(self).replaying(),
        ensures
            final(self).wf(),
            r@ == outcome@,
            final(self).log() == old(self).log().push(
                JournalEntryVal::RunResult { outcome: outcome@ },
            ),
            final(self).pos == old(self).pos,
            final(self).store == old(self).store,
            final(self).touched == old(self).touched,
            !final(self).poisoned,
            Self::same_io(*old(self), *final(self)),
    {
        let ghost appended0 = self.appended@;
        let r = outcome.dup();
        let entry = JournalEntry::RunResult { outcome };
        let ghost ev = entry@;
        self.appended.push(entry);
        proof {
            assert(self.log() =~= entry_views(appended0).push(ev));
        }
        r
    }

    /// The deterministic random step: a linear congruential mix of the seed.
    pub open spec fn spec_mix(seed: u64) -> u64 {
        (((seed * 6364136223846793005) + 1442695040888963407) % 0x10000000000000000) as u64
    }

    /// What drawing a random value guarantees: replay returns the recorded
    /// value and re-seeds the source with it; fresh execution mixes the seed,
    /// records the drawn value, and returns it.
    pub open spec fn rand_post(
        pre: InvocationCtx,
        post: InvocationCtx,
        r: Result<u64, Interrupt>,
    ) -> bool {
        if pre.poisoned {
            &&& r matches Err(e) && e@ is NonDeterminism
            &&& Self::diverged(pre, post)
        } else if pre.replaying() {
            match pre.next_entry() {
                JournalEntryVal::Random { bits } => {
                    &&& r == Result::<u64, Interrupt>::Ok(bits)
                    &&& post.pos == pre.pos + 1
                    &&& post.rand_seed == bits
                    &&& post.replay == pre.replay
                    &&& post.appended == pre.appended
                    &&& post.store == pre.store
                    &&& post.touched == pre.touched
                    &&& post.poisoned == pre.poisoned
                    &&& post.sleeps == pre.sleeps
                    &&& post.pending_call == pre.pending_call
                    &&& post.outbox == pre.outbox
                },
                _ => {
                    &&& r matches Err(e) && e@ is NonDeterminism
                    &&& Self::diverged(pre, post)
                },
            }
        } else {
            &&& r == Result::<u64, Interrupt>::Ok(Self::spec_mix(pre.rand_seed))
            &&& post.pos == pre.pos
            &&& post.rand_seed == Self::spec_mix(pre.rand_seed)
            &&& post.log() == pre.log().push(
                JournalEntryVal::Random { bits: Self::spec_mix(pre.rand_seed) },
            )
            &&& post.replay == pre.replay
            &&& post.store == pre.store
            &&& post.touched == pre.touched
            &&& !post.poisoned
            &&& post.sleeps == pre.sleeps
            &&& post.pending_call == pre.pending_call
            &&& post.outbox == pre.outbox
        }
    }

    /// Draws a durable, replay-stable random value.
    pub fn rand_u64(&mut self) -> (r: Result<u64, Interrupt>)
        requires
            old(self).wf(),
        ensures
            final(self).wf(),
            Self::rand_post(*old(self), *final(self), r),
    {
        if self.poisoned {
            return Err(Interrupt::NonDeterminism);
        }
        if self.pos < self.replay.len() {
            let recorded: Option<u64> = match &self.replay[self.pos] {
                JournalEntry::Random { bits } => Some(*bits),
                _ => None,
            };
            match recorded {
                Some(bits) => {
                    self.pos = self.pos + 1;
                    self.rand_seed = bits;
                    Ok(bits)
                },
                None => {
                    self.poisoned = true;
                    Err(Interrupt::NonDeterminism)
                },
            }
        } else {
            let drawn = mix_seed(self.rand_seed);
            self.rand_seed = drawn;
            let ghost appended0 = self.appended@;
            self.appended.push(JournalEntry::Random { bits: drawn });
            proof {
                assert(self.log() =~= entry_views(appended0).push(
                    JournalEntryVal::Random { bits: drawn },
                ));
            }
            Ok(drawn)
        }
    }

    /// What a durable timer guarantees: replay consumes the recorded entry
    /// without waiting again; fresh execution records the timer and asks the
    /// runtime shell to wait it out.
    pub open spec fn sleep_post(
        pre: InvocationCtx,
        post: InvocationCtx,
        millis: u64,
        r: Result<(), Interrupt>,
    ) -> bool {
        if pre.poisoned {
            &&& r matches Err(e) && e@ is NonDeterminism
            &&& Self::diverged(pre, post)
        } else if pre.replaying() {
            if pre.next_entry() == (JournalEntryVal::Timer { millis }) {
                &&& r matches Ok(u)
                &&& Self::consumed_one(pre, post)
            } else {
                &&& r matches Err(e) && e@ is NonDeterminism
                &&& Self::diverged(pre, post)
            }
        } else {
            &&& r matches Ok(u)
            &&& post.pos == pre.pos
            &&& post.log() == pre.log().push(JournalEntryVal::Timer { millis })
            &&& post.sleeps@ == pre.sleeps@.push(millis)
            &&& post.replay == pre.replay
            &&& post.store == pre.store
            &&& post.touched == pre.touched
            &&& !post.poisoned
            &&& post.rand_seed == pre.rand_seed
            &&& post.pending_call == pre.pending_call
            &&& post.outbox == pre.outbox
        }
    }

    /// Waits durably for the given number of milliseconds.
    pub fn sleep(&mut self, millis: u64) -> (r: Result<(), Interrupt>)
        requires
            old(self).wf(),
        ensures
            final(self).wf(),
            Self::sleep_post(*old(self), *final(self), millis, r),
    {
        if self.poisoned {
            return Err(Interrupt::NonDeterminism);
        }
        if self.pos < self.replay.len() {
            let matched: bool = match &self.replay[self.pos] {
                JournalEntry::Timer { millis: m } => *m == millis,
                _ => false,
            };
            if !matched {
                self.poisoned = true;
                return Err(Interrupt::NonDeterminism);
            }
            self.pos = self.pos + 1;
            Ok(())
        } else {
            let ghost appended0 = self.appended@;
            self.appended.push(JournalEntry::Timer { millis });
            self.sleeps.push(millis);
            proof {
                assert(self.log() =~= entry_views(appended0).push(
                    JournalEntryVal::Timer { millis },
                ));
            }
            Ok(())
        }
    }

    /// What calling another handler guarantees: a recorded result is returned
    /// without re-issuing the call; a terminal outcome of the target
    /// propagates as a terminal failure; a fresh call suspends the invocation
    /// with the request noted for the orchestrator.
    pub open spec fn call_post(
        pre: InvocationCtx,
        post: InvocationCtx,
        req: CallRequestVal,
        r: Result<Payload, Interrupt>,
    ) -> bool {
        if pre.poisoned {
            &&& r matches Err(e) && e@ is NonDeterminism
            &&& Self::diverged(pre, post)
        } else if pre.replaying() {
            match pre.next_entry() {
                JournalEntryVal::CallResult { outcome } => {
                    &&& match outcome {
                        OpOutcomeVal::Success(p) => r matches Ok(v) && v@ == p,
                        OpOutcomeVal::Terminal(t) => r matches Err(e) && e@
                            == InterruptVal::Fail(FailureVal::Terminal(t)),
                    }
                    &&& Self::consumed_one(pre, post)
                },
                _ => {
                    &&& r matches Err(e) && e@ is NonDeterminism
                    &&& Self::diverged(pre, post)
                },
            }
        } else {
            &&& r matches Err(e) && e@ is Suspend
            &&& post.pending_call matches Some(c) && c@ == req
            &&& post.pos == pre.pos
            &&& post.replay == pre.replay
            &&& post.appended == pre.appended
            &&& post.store == pre.store
            &&& post.touched == pre.touched
            &&& !post.poisoned
            &&& post.rand_seed == pre.rand_seed
            &&& post.sleeps == pre.sleeps
            &&& post.outbox == pre.outbox
        }
    }

    /// Calls another handler and suspends until its result is durably
    /// recorded.
    pub fn call(
        &mut self,
        service: String,
        key: Option<String>,
        handler: String,
        input: Payload,
    ) -> (r: Result<Payload, Interrupt>)
        requires
            old(self).wf(),
            old(self).pending_call is None,
        ensures
            final(self).wf(),
            Self::call_post(
                *old(self),
                *final(self),
                CallRequestVal {
                    service: service@,
                    key: crate::journal::opt_key_val(key),
                    handler: handler@,
                    input: input@,
                },
                r,
            ),
    {
        if self.poisoned {
            return Err(Interrupt::NonDeterminism);
        }
        if self.pos < self.replay.len() {
            let recorded: Option<OpOutcome> = match &self.replay[self.pos] {
                JournalEntry::CallResult { outcome } => Some(outcome.dup()),
                _ => None,
            };
            match recorded {
                Some(OpOutcome::Success(p)) => {
                    self.pos = self.pos + 1;
                    Ok(p)
                },
                Some(OpOutcome::Terminal(t)) => {
                    self.pos = self.pos + 1;
                    Err(Interrupt::Fail(Failure::Terminal(t)))
                },
                None => {
                    self.poisoned = true;
                    Err(Interrupt::NonDeterminism)
                },
            }
        } else {
            self.pending_call = Some(CallRequest { service, key, handler, input });
            Err(Interrupt::Suspend)
        }
    }

    /// Notes a local wait the runtime shell must perform, in milliseconds.
    /// Retry delays between side-effect attempts pass through here: they are
    /// local to one attempt and never journaled.
    pub fn request_wait(&mut self, millis: u64)
        requires
            old(self).wf(),
        ensures
            final(self).wf(),
            final(self).sleeps@ == old(self).sleeps@.push(millis),
            final(self).replay == old(self).replay,
            final(self).pos == old(self).pos,
            final(self).appended == old(self).appended,
            final(self).store == old(self).store,
            final(self).touched == old(self).touched,
            final(self).poisoned == old(self).poisoned,
            final(self).rand_seed == old(self).rand_seed,
            final(self).pending_call == old(self).pending_call,
            final(self).outbox == old(self).outbox,
    {
        self.sleeps.push(millis);
    }

    /// Sends a fire-and-forget invocation of another handler: it does not
    /// suspend and no result entry is ever recorded for it.
    pub fn send(
        &mut self,
        service: String,
        key: Option<String>,
        handler: String,
        input: Payload,
    ) -> (r: Result<(), Interrupt>)
        requires
            old(self).wf(),
        ensures
            final(self).wf(),
            old(self).poisoned ==> (r matches Err(e) && e@ is NonDeterminism
                && Self::diverged(*old(self), *final(self))),
            !old(self).poisoned ==> {
                &&& r matches Ok(u)
                &&& final(self).outbox@.len() == old(self).outbox@.len() + 1
                &&& final(self).outbox@.last()@ == (CallRequestVal {
                    service: service@,
                    key: crate::journal::opt_key_val(key),
                    handler: handler@,
                    input: input@,
                })
                &&& final(self).outbox@.take(old(self).outbox@.len() as int)
                    == old(self).outbox@
                &&& final(self).pos == old(self).pos
                &&& final(self).replay == old(self).replay
                &&& final(self).appended == old(self).appended
                &&& final(self).store == old(self).store
                &&& final(self).touched == old(self).touched
                &&& !final(self).poisoned
                &&& final(self).rand_seed == old(self).rand_seed
                &&& final(self).sleeps == old(self).sleeps
                &&& final(self).pending_call == old(self).pending_call
            },
    {
        if self.poisoned {
            return Err(Interrupt::NonDeterminism);
        }
        let ghost outbox0 = self.outbox@;
        self.outbox.push(CallRequest { service, key, handler, input });
        proof {
            assert(self.outbox@.take(outbox0.len() as int) =~= outbox0);
        }
        Ok(())
    }
}

/// What entering a side effect can find.
pub enum RunEnter {
    /// A recorded outcome: return it; the closure must not run.
    Recorded(OpOutcome),
    /// No recorded outcome: execute the closure, then commit.
    Fresh,
    /// The invocation must abort with this interrupt.
    Stop(Interrupt),
}

/// Replays of one recorded journal are idempotent: entering a side effect at
/// the same position of the same journal yields the same recorded outcome on
/// every execution, and a recorded outcome never lets the closure run.
pub proof fn lemma_replay_idempotent(
    c1: InvocationCtx,
    c2: InvocationCtx,
    d1: InvocationCtx,
    d2: InvocationCtx,
    r1: RunEnter,
    r2: RunEnter,
)
    requires
        !c1.poisoned,
        !c2.poisoned,
        c1.replay@ == c2.replay@,
        c1.pos == c2.pos,
        c1.replaying(),
        c1.next_entry() is RunResult,
        InvocationCtx::run_enter_post(c1, d1, r1),
        InvocationCtx::run_enter_post(c2, d2, r2),
    ensures
        r1 matches RunEnter::Recorded(o1) && r2 matches RunEnter::Recorded(o2) && o1@ == o2@,
        d1.pos == d2.pos,
{
    assert(c2.next_entry() == c1.next_entry());
}

/// Local read-after-write: once a key was written (or read) in an
/// invocation, a `get` of that key returns the working value — for a key
/// just set, exactly the value written — and leaves the context untouched:
/// no recorded entry is consumed and none is appended, so the journal is not
/// consulted at all.
pub proof fn lemma_read_after_write(
    pre: InvocationCtx,
    post: InvocationCtx,
    key: Seq<char>,
    v: PayloadVal,
    r: Result<Option<Payload>, Interrupt>,
)
    requires
        !pre.poisoned,
        pre.is_touched(key),
        pre.state_val(key) == Option::Some(v),
        InvocationCtx::get_post(pre, post, key, r),
    ensures
        r matches Ok(o) && opt_payload_val(o) == Option::Some(v),
        post == pre,
{
}

/// Advances the deterministic random source by one step.
pub fn mix_seed(seed: u64) -> (r: u64)
    ensures
        r == InvocationCtx::spec_mix(seed),
{
    proof {
        assert((seed as int) * 6364136223846793005int
            <= (u64::MAX as int) * 6364136223846793005int) by (nonlinear_arith)
            requires
                seed <= u64::MAX,
        ;
    }
    let prod: u128 = (seed as u128) * 6364136223846793005u128;
    let x: u128 = prod + 1442695040888963407u128;
    let y: u128 = x % 0x10000000000000000u128;
    y as u64
}

} // verus!
