//! Runtime core of a durable-execution SDK: dispatch of invocations to
//! handlers, and the replay-safe execution context handed to handler code.
//!
//! User code defines handlers grouped into services, virtual objects or
//! workflows.  An orchestrator delivers invocations together with the journal
//! of durable operations recorded by earlier attempts; the context replays
//! recorded operations instead of re-executing them, buffers state writes
//! until the invocation completes, and classifies failures as terminal
//! (permanent) or retriable (eligible for re-invocation).

pub mod context;
pub mod counter;
pub mod dispatch;
pub mod errors;
pub mod failing;
pub mod journal;
pub mod payload;
pub mod retry;
pub mod state;
pub mod variants;
