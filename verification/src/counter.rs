//! A counter virtual object: handlers over durable instance state.
//!
//! The counter lives under one state key.  `add` and `reset` are exclusive
//! handlers and receive the full read/write context; `get` is shared and can
//! only read.

use vstd::prelude::*;
use crate::context::InvocationCtx;
use crate::dispatch::{Concurrency, DispatchOutput, HandlerDescriptor, Invocation,
    InvocationOutcome, ServiceDescriptor, ServiceKind, outcome_of, output_from};
use crate::errors::{Failure, FailureVal, Interrupt, InterruptVal};
use crate::payload::{Payload, PayloadVal};
use crate::state::StateStore;
use crate::variants::{ObjectContext, SharedObjectContext};

verus! {

/// The state key the counter lives under.
pub open spec fn count_key() -> Seq<char> {
    "count"@
}

fn count_key_exec() -> (r: String)
    ensures
        r@ == count_key(),
{
    String::from_str("count")
}

/// The counter value a stored payload denotes: an absent key means zero; a
/// non-integer payload is corrupt state, answered with a terminal error.
pub open spec fn count_of(v: Option<PayloadVal>) -> Option<int> {
    match v {
        Option::None => Option::Some(0),
        Option::Some(PayloadVal::Int(n)) => Option::Some(n),
        Option::Some(_) => Option::None,
    }
}

/// Adds `n` to the counter and returns the new value.  On a fresh execution
/// with an untouched key, the result and the new state are exactly the old
/// value plus `n`; an overflowing sum or a corrupt stored value is a terminal
/// failure and leaves the state unchanged.
pub fn add(ctx: &mut ObjectContext, n: i64) -> (r: Result<i64, Interrupt>)
    requires
        old(ctx).ctx().wf(),
    ensures
        final(ctx).ctx().wf(),
        (old(ctx).ctx().fresh() && !old(ctx).ctx().is_touched(count_key())) ==> (match count_of(
            old(ctx).ctx().state_val(count_key()),
        ) {
            Option::Some(c) => {
                if i64::MIN <= c + n <= i64::MAX {
                    &&& (r matches Ok(v) && v as int == c + n)
                    &&& final(ctx).ctx().state_val(count_key())
                        == Option::Some(PayloadVal::Int(c + n))
                    &&& final(ctx).ctx().fresh()
                } else {
                    &&& (r matches Err(e) && e@ matches InterruptVal::Fail(
                        FailureVal::Terminal(t),
                    ))
                    &&& final(ctx).ctx().state_val(count_key())
                        == old(ctx).ctx().state_val(count_key())
                }
            },
            Option::None => r matches Err(e) && e@ matches InterruptVal::Fail(
                FailureVal::Terminal(t),
            ),
        }),
{
    let key = count_key_exec();
    let cur = match ctx.get(&key) {
        Ok(v) => v,
        Err(e) => {
            return Err(e);
        },
    };
    let c: i64 = match cur {
        None => 0,
        Some(Payload::Int(v)) => v,
        Some(_) => {
            return Err(Interrupt::Fail(Failure::terminal(
                String::from_str("counter state is not an integer"),
            )));
        },
    };
    let sum: i64 = match c.checked_add(n) {
        Some(s) => s,
        None => {
            return Err(Interrupt::Fail(Failure::terminal(
                String::from_str("counter overflow"),
            )));
        },
    };
    match ctx.set(key, Payload::Int(sum)) {
        Ok(u) => Ok(sum),
        Err(e) => Err(e),
    }
}

/// Reads the counter through the shared (read-only) context.
pub fn get(ctx: &mut SharedObjectContext) -> (r: Result<i64, Interrupt>)
    requires
        old(ctx).ctx().wf(),
    ensures
        final(ctx).ctx().wf(),
        (old(ctx).ctx().fresh() && !old(ctx).ctx().is_touched(count_key())) ==> (match count_of(
            old(ctx).ctx().state_val(count_key()),
        ) {
            Option::Some(c) => r matches Ok(v) && v as int == c,
            Option::None => r matches Err(e) && e@ matches InterruptVal::Fail(
                FailureVal::Terminal(t),
            ),
        }),
{
    let key = count_key_exec();
    let cur = match ctx.get(&key) {
        Ok(v) => v,
        Err(e) => {
            return Err(e);
        },
    };
    match cur {
        None => Ok(0),
        Some(Payload::Int(v)) => Ok(v),
        Some(_) => Err(Interrupt::Fail(Failure::terminal(
            String::from_str("counter state is not an integer"),
        ))),
    }
}

/// Clears the counter: a later read yields zero.
pub fn reset(ctx: &mut ObjectContext) -> (r: Result<(), Interrupt>)
    requires
        old(ctx).ctx().wf(),
    ensures
        final(ctx).ctx().wf(),
        old(ctx).ctx().fresh() ==> {
            &&& r is Ok
            &&& final(ctx).ctx().state_val(count_key()) is None
            &&& count_of(final(ctx).ctx().state_val(count_key())) == Option::Some(0int)
        },
{
    let key = count_key_exec();
    ctx.clear(&key)
}

/// The static descriptors of the counter object: `add` and `reset` exclusive,
/// `get` shared, `add` the only handler with an input.
pub fn counter_descriptor() -> (d: ServiceDescriptor)
    ensures
        d.wf(),
        d.kind == ServiceKind::VirtualObject,
        d.name@ == "Counter"@,
        d.handlers@.len() == 3,
        d.handlers@[0].name@ == "add"@ && d.handlers@[0].concurrency is Exclusive
            && d.handlers@[0].has_input,
        d.handlers@[1].name@ == "get"@ && d.handlers@[1].concurrency is Shared
            && !d.handlers@[1].has_input,
        d.handlers@[2].name@ == "reset"@ && d.handlers@[2].concurrency is Exclusive
            && !d.handlers@[2].has_input,
{
    proof {
        reveal_strlit("add");
        reveal_strlit("get");
        reveal_strlit("reset");
    }
    let mut d = ServiceDescriptor::new(ServiceKind::VirtualObject, String::from_str("Counter"));
    let ok_add = d.add_handler(HandlerDescriptor {
        name: String::from_str("add"),
        concurrency: Concurrency::Exclusive,
        has_input: true,
    });
    proof {
        assert(ok_add);
        assert("add"@[0] == 'a' && "get"@[0] == 'g' && "add"@.len() == 3 && "reset"@.len() == 5
            && "get"@.len() == 3);
    }
    let ok_get = d.add_handler(HandlerDescriptor {
        name: String::from_str("get"),
        concurrency: Concurrency::Shared,
        has_input: false,
    });
    proof {
        assert(ok_get);
    }
    let ok_reset = d.add_handler(HandlerDescriptor {
        name: String::from_str("reset"),
        concurrency: Concurrency::Exclusive,
        has_input: false,
    });
    proof {
        assert(ok_reset);
    }
    d
}

/// Dispatches one invocation of the counter object, exactly as a generated
/// entry point would: resolve the handler name, check the key and the input,
/// construct the context variant the handler's mode calls for, run the
/// handler, classify its result.  An unknown handler name is a permanent
/// dispatch error, returned before any context exists: nothing is consumed,
/// appended, or buffered.
pub fn dispatch_counter(inv: Invocation, snapshot: StateStore, seed: u64) -> (out: DispatchOutput)
    requires
        snapshot.wf(),
    ensures
        !(inv.handler_name@ == "add"@ || inv.handler_name@ == "get"@ || inv.handler_name@
            == "reset"@) ==> {
            &&& out.outcome is Failure
            &&& out.new_entries@.len() == 0
            &&& out.sleeps@.len() == 0
            &&& out.pending_call is None
            &&& out.outbox@.len() == 0
        },
        inv.key is None && (inv.handler_name@ == "add"@ || inv.handler_name@ == "get"@
            || inv.handler_name@ == "reset"@) ==> out.outcome is Failure,
        (inv.handler_name@ == "add"@ && inv.key is Some && !(inv.input@ is Int))
            ==> out.outcome is Failure,
        (inv.handler_name@ == "add"@ && inv.key is Some && inv.journal@.len() == 0)
            ==> (match (inv.input@, count_of(snapshot.val(count_key()))) {
            (PayloadVal::Int(n), Option::Some(c)) => {
                if i64::MIN <= c + n <= i64::MAX {
                    out.outcome matches InvocationOutcome::Success(p) && p@ == PayloadVal::Int(
                        c + n,
                    )
                } else {
                    out.outcome is Failure
                }
            },
            _ => out.outcome is Failure,
        }),
        (inv.handler_name@ == "get"@ && inv.key is Some && inv.journal@.len() == 0)
            ==> (match count_of(snapshot.val(count_key())) {
            Option::Some(c) => out.outcome matches InvocationOutcome::Success(p) && p@
                == PayloadVal::Int(c),
            Option::None => out.outcome is Failure,
        }),
        (inv.handler_name@ == "reset"@ && inv.key is Some && inv.journal@.len() == 0)
            ==> (out.outcome matches InvocationOutcome::Success(p) && p@ is Empty),
{
    proof {
        reveal_strlit("add");
        reveal_strlit("get");
        reveal_strlit("reset");
    }
    let d = counter_descriptor();
    let idx = match d.resolve(&inv.handler_name) {
        Some(i) => i,
        None => {
            return DispatchOutput {
                outcome: InvocationOutcome::Failure(crate::errors::TerminalErr::new(
                    String::from_str("unknown handler"),
                )),
                new_entries: Vec::new(),
                sleeps: Vec::new(),
                pending_call: None,
                outbox: Vec::new(),
            };
        },
    };
    let key = match inv.key {
        Some(k) => k,
        None => {
            return DispatchOutput {
                outcome: InvocationOutcome::Failure(crate::errors::TerminalErr::new(
                    String::from_str("object invocation without a key"),
                )),
                new_entries: Vec::new(),
                sleeps: Vec::new(),
                pending_call: None,
                outbox: Vec::new(),
            };
        },
    };
    let inner = InvocationCtx::new(inv.journal, snapshot, seed);
    if idx == 0 {
        let n: i64 = match inv.input {
            Payload::Int(v) => v,
            _ => {
                return output_from(inner, InvocationOutcome::Failure(
                    crate::errors::TerminalErr::new(String::from_str("input is not an integer")),
                ));
            },
        };
        let mut ctx = ObjectContext::new(inner, key);
        let res = crate::counter::add(&mut ctx, n);
        let out = match res {
            Ok(v) => Ok(Payload::Int(v)),
            Err(e) => Err(e),
        };
        let outcome = outcome_of(out);
        output_from(ctx.into_inner(), outcome)
    } else if idx == 1 {
        let mut ctx = SharedObjectContext::new(inner, key);
        let res = get(&mut ctx);
        let out = match res {
            Ok(v) => Ok(Payload::Int(v)),
            Err(e) => Err(e),
        };
        let outcome = outcome_of(out);
        output_from(ctx.into_inner(), outcome)
    } else {
        let mut ctx = ObjectContext::new(inner, key);
        let res = reset(&mut ctx);
        let out = match res {
            Ok(u) => Ok(Payload::Empty),
            Err(e) => Err(e),
        };
        let outcome = outcome_of(out);
        output_from(ctx.into_inner(), outcome)
    }
}

} // verus!
