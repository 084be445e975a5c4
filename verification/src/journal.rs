//! The journal of durable operations.
//!
//! Every durable operation of one invocation corresponds to one journal
//! entry, strictly sequenced in the order handler code invoked the
//! operations.  During replay, entries are consumed in index order and the
//! recorded outcome is returned instead of re-executing the operation; during
//! fresh execution, exactly one new entry is appended per operation.  The
//! wire encoding of entries is an external collaborator's concern.

use vstd::prelude::*;
use crate::errors::{TerminalErr, TerminalErrVal};
use crate::payload::{opt_payload_val, Payload, PayloadVal};

verus! {

/// The durably recorded outcome of a side effect or of a call to another
/// handler: a success value, or a terminal failure.  Retriable failures are
/// never recorded; they are consumed by retrying.
#[derive(Debug, Clone, PartialEq, Eq)]
pub enum OpOutcome {
    Success(Payload),
    Terminal(TerminalErr),
}

/// The mathematical value of an [`OpOutcome`].
#[verifier::ext_equal]
pub enum OpOutcomeVal {
    Success(PayloadVal),
    Terminal(TerminalErrVal),
}

impl View for OpOutcome {
    type V = OpOutcomeVal;

    open spec fn view(&self) -> OpOutcomeVal {
        match self {
            OpOutcome::Success(p) => OpOutcomeVal::Success(p@),
            OpOutcome::Terminal(t) => OpOutcomeVal::Terminal(t@),
        }
    }
}

impl OpOutcome {
    /// Copies the outcome.
    pub fn dup(&self) -> (r: OpOutcome)
        ensures
            r@ == self@,
    {
        match self {
            OpOutcome::Success(p) => OpOutcome::Success(p.dup()),
            OpOutcome::Terminal(t) => OpOutcome::Terminal(t.dup()),
        }
    }
}

/// One durable operation of one invocation, in journal order.
#[derive(Debug, Clone, PartialEq, Eq)]
pub enum JournalEntry {
    /// First read of a state key within an invocation, with the value found.
    StateGet { key: String, found: Option<Payload> },
    /// A buffered write of a state key.
    StateSet { key: String, value: Payload },
    /// A buffered tombstone for a state key.
    StateClear { key: String },
    /// A buffered tombstone for the whole key space of the instance.
    StateClearAll,
    /// The committed outcome of a side effect.
    RunResult { outcome: OpOutcome },
    /// The recorded outcome of a call to another handler.
    CallResult { outcome: OpOutcome },
    /// A deterministic random value drawn by the handler.
    Random { bits: u64 },
    /// A durable timer of the given duration.
    Timer { millis: u64 },
}

/// The mathematical value of a [`JournalEntry`].
#[verifier::ext_equal]
pub enum JournalEntryVal {
    StateGet { key: Seq<char>, found: Option<PayloadVal> },
    StateSet { key: Seq<char>, value: PayloadVal },
    StateClear { key: Seq<char> },
    StateClearAll,
    RunResult { outcome: OpOutcomeVal },
    CallResult { outcome: OpOutcomeVal },
    Random { bits: u64 },
    Timer { millis: u64 },
}

impl View for JournalEntry {
    type V = JournalEntryVal;

    open spec fn view(&self) -> JournalEntryVal {
        match self {
            JournalEntry::StateGet { key, found } => JournalEntryVal::StateGet {
                key: key@,
                found: opt_payload_val(*found),
            },
            JournalEntry::StateSet { key, value } => JournalEntryVal::StateSet {
                key: key@,
                value: value@,
            },
            JournalEntry::StateClear { key } => JournalEntryVal::StateClear { key: key@ },
            JournalEntry::StateClearAll => JournalEntryVal::StateClearAll,
            JournalEntry::RunResult { outcome } => JournalEntryVal::RunResult { outcome: outcome@ },
            JournalEntry::CallResult { outcome } => JournalEntryVal::CallResult { outcome: outcome@ },
            JournalEntry::Random { bits } => JournalEntryVal::Random { bits: *bits },
            JournalEntry::Timer { millis } => JournalEntryVal::Timer { millis: *millis },
        }
    }
}

/// The kind of a journal entry.  The sequence of kinds produced by handler
/// code must be identical on every execution of one invocation; a divergence
/// is non-determinism, fatal for that invocation.
#[derive(PartialEq, Eq, Structural, Clone, Copy, Debug)]
pub enum EntryKind {
    StateGet,
    StateSet,
    StateClear,
    StateClearAll,
    RunResult,
    CallResult,
    Random,
    Timer,
}

/// The kind of a recorded entry value.
pub open spec fn kind_of(e: JournalEntryVal) -> EntryKind {
    match e {
        JournalEntryVal::StateGet { .. } => EntryKind::StateGet,
        JournalEntryVal::StateSet { .. } => EntryKind::StateSet,
        JournalEntryVal::StateClear { .. } => EntryKind::StateClear,
        JournalEntryVal::StateClearAll => EntryKind::StateClearAll,
        JournalEntryVal::RunResult { .. } => EntryKind::RunResult,
        JournalEntryVal::CallResult { .. } => EntryKind::CallResult,
        JournalEntryVal::Random { .. } => EntryKind::Random,
        JournalEntryVal::Timer { .. } => EntryKind::Timer,
    }
}

impl JournalEntry {
    /// The kind of this entry.
    pub fn kind(&self) -> (r: EntryKind)
        ensures
            r == kind_of(self@),
    {
        match self {
            JournalEntry::StateGet { .. } => EntryKind::StateGet,
            JournalEntry::StateSet { .. } => EntryKind::StateSet,
            JournalEntry::StateClear { .. } => EntryKind::StateClear,
            JournalEntry::StateClearAll => EntryKind::StateClearAll,
            JournalEntry::RunResult { .. } => EntryKind::RunResult,
            JournalEntry::CallResult { .. } => EntryKind::CallResult,
            JournalEntry::Random { .. } => EntryKind::Random,
            JournalEntry::Timer { .. } => EntryKind::Timer,
        }
    }
}

/// The journal views of a sequence of entries.
pub open spec fn entry_views(s: Seq<JournalEntry>) -> Seq<JournalEntryVal> {
    s.map_values(|e: JournalEntry| e@)
}

/// A request to invoke another handler, issued through the call client.
#[derive(Debug, Clone, PartialEq, Eq)]
pub struct CallRequest {
    pub service: String,
    pub key: Option<String>,
    pub handler: String,
    pub input: Payload,
}

/// The mathematical value of a [`CallRequest`].
#[verifier::ext_equal]
pub struct CallRequestVal {
    pub service: Seq<char>,
    pub key: Option<Seq<char>>,
    pub handler: Seq<char>,
    pub input: PayloadVal,
}

/// The value of an optional key.
pub open spec fn opt_key_val(o: Option<String>) -> Option<Seq<char>> {
    match o {
        Option::None => Option::None,
        Option::Some(k) => Option::Some(k@),
    }
}

impl View for CallRequest {
    type V = CallRequestVal;

    open spec fn view(&self) -> CallRequestVal {
        CallRequestVal {
            service: self.service@,
            key: opt_key_val(self.key),
            handler: self.handler@,
            input: self.input@,
        }
    }
}

} // verus!
