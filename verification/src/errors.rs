//! The error taxonomy of the core.
//!
//! Failures raised by handler code or by the runtime are either *terminal*
//! (permanent: recorded as the final outcome, never retried) or *retriable*
//! (transient: the orchestrator may re-deliver the invocation, and a side
//! effect under a retry policy retries them locally).  A third condition,
//! non-determinism between the recorded journal and the current execution, is
//! detected by the runtime itself and never surfaces to handler code as a
//! retriable or terminal error.

use vstd::prelude::*;

verus! {

/// A permanent failure: a human-readable message and an optional numeric
/// code.  Once raised it becomes the final outcome of the side effect or
/// invocation that raised it and is never retried.
#[derive(Debug, Clone, PartialEq, Eq)]
pub struct TerminalErr {
    pub message: String,
    pub code: Option<u32>,
}

/// The mathematical value of a [`TerminalErr`].
#[verifier::ext_equal]
pub struct TerminalErrVal {
    pub message: Seq<char>,
    pub code: Option<u32>,
}

impl View for TerminalErr {
    type V = TerminalErrVal;

    open spec fn view(&self) -> TerminalErrVal {
        TerminalErrVal { message: self.message@, code: self.code }
    }
}

impl TerminalErr {
    /// A terminal failure with a message and no code.
    pub fn new(message: String) -> (r: TerminalErr)
        ensures
            r@.message == message@,
            r@.code is None,
    {
        TerminalErr { message, code: None }
    }

    /// A terminal failure with a message and a numeric code.
    pub fn with_code(message: String, code: u32) -> (r: TerminalErr)
        ensures
            r@.message == message@,
            r@.code == Some(code),
    {
        TerminalErr { message, code: Some(code) }
    }

    /// Copies the error.
    pub fn dup(&self) -> (r: TerminalErr)
        ensures
            r@ == self@,
    {
        TerminalErr { message: self.message.clone(), code: self.code }
    }
}

/// The error type handler code sees: terminal or retriable.
#[derive(Debug, Clone, PartialEq, Eq)]
pub enum Failure {
    /// Permanent; never retried.
    Terminal(TerminalErr),
    /// Transient; eligible for retry at the side-effect or invocation level.
    Retriable(String),
}

/// The mathematical value of a [`Failure`].
#[verifier::ext_equal]
pub enum FailureVal {
    Terminal(TerminalErrVal),
    Retriable(Seq<char>),
}

impl View for Failure {
    type V = FailureVal;

    open spec fn view(&self) -> FailureVal {
        match self {
            Failure::Terminal(t) => FailureVal::Terminal(t@),
            Failure::Retriable(m) => FailureVal::Retriable(m@),
        }
    }
}

impl Failure {
    /// An explicitly terminal failure: always classifies as `Terminal`.
    pub fn terminal(message: String) -> (r: Failure)
        ensures
            r@ == FailureVal::Terminal(TerminalErrVal { message: message@, code: None }),
    {
        Failure::Terminal(TerminalErr::new(message))
    }

    /// A generic transient failure: defaults to `Retriable`.
    pub fn retriable(message: String) -> (r: Failure)
        ensures
            r@ == FailureVal::Retriable(message@),
    {
        Failure::Retriable(message)
    }

    /// True exactly on terminal failures.
    pub fn is_terminal(&self) -> (r: bool)
        ensures
            r == (self@ is Terminal),
    {
        match self {
            Failure::Terminal(_) => true,
            Failure::Retriable(_) => false,
        }
    }

    /// Copies the failure.
    pub fn dup(&self) -> (r: Failure)
        ensures
            r@ == self@,
    {
        match self {
            Failure::Terminal(t) => Failure::Terminal(t.dup()),
            Failure::Retriable(m) => Failure::Retriable(m.clone()),
        }
    }
}

/// A generic failure without further classification defaults to retriable.
impl From<String> for Failure {
    fn from(message: String) -> (r: Failure) {
        Failure::Retriable(message)
    }
}

impl vstd::std_specs::convert::FromSpecImpl<String> for Failure {
    open spec fn obeys_from_spec() -> bool {
        true
    }

    open spec fn from_spec(message: String) -> Failure {
        Failure::Retriable(message)
    }
}

/// An explicit terminal error always classifies as terminal.
impl From<TerminalErr> for Failure {
    fn from(err: TerminalErr) -> (r: Failure) {
        Failure::Terminal(err)
    }
}

impl vstd::std_specs::convert::FromSpecImpl<TerminalErr> for Failure {
    open spec fn obeys_from_spec() -> bool {
        true
    }

    open spec fn from_spec(err: TerminalErr) -> Failure {
        Failure::Terminal(err)
    }
}

/// Why a context operation did not hand a value back to handler code.
#[derive(Debug, Clone, PartialEq, Eq)]
pub enum Interrupt {
    /// The operation's durable outcome is a failure (for example a call whose
    /// target ended terminally, or a side effect whose retries are exhausted).
    Fail(Failure),
    /// A fresh call result is not yet recorded: the invocation suspends and
    /// will be re-delivered once the orchestrator has recorded the result.
    Suspend,
    /// The recorded journal and the current execution path diverged.  Fatal
    /// for the invocation; aborts dispatch before handler code can observe it
    /// as an ordinary failure.
    NonDeterminism,
}

/// The mathematical value of an [`Interrupt`].
#[verifier::ext_equal]
pub enum InterruptVal {
    Fail(FailureVal),
    Suspend,
    NonDeterminism,
}

impl View for Interrupt {
    type V = InterruptVal;

    open spec fn view(&self) -> InterruptVal {
        match self {
            Interrupt::Fail(f) => InterruptVal::Fail(f@),
            Interrupt::Suspend => InterruptVal::Suspend,
            Interrupt::NonDeterminism => InterruptVal::NonDeterminism,
        }
    }
}

} // verus!
