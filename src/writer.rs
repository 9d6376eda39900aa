//! What follows a write of a point to the metrics sink.
use vstd::prelude::*;

verus! {

/// Whether a failed write earns one reconnect and one more try.
#[derive(Clone, Copy, Debug, PartialEq, Eq, Structural)]
pub struct RetryPolicy {
    pub retry: bool,
}

impl Default for RetryPolicy {
    /// Fail fast: any failed write is terminal.
    fn default() -> (r: RetryPolicy)
        ensures
            !r.retry,
    {
        RetryPolicy { retry: false }
    }
}

/// Which try of a point's delivery a write is.
#[derive(Clone, Copy, Debug, PartialEq, Eq, Structural)]
pub enum Attempt {
    First,
    Retry,
}

/// What the writer does once a write has come back.
#[derive(Clone, Copy, Debug, PartialEq, Eq, Structural)]
pub enum WriteAction {
    /// The point is delivered; go on with the next one.
    Delivered,
    /// Drop the connection, open a fresh one with the same parameters and write the same point again.
    Reconnect,
    /// The sink cannot be written to: stop.
    Fatal,
}

/// The action after a write: success delivers; a first failure reconnects
/// when the policy allows a retry; any other failure is fatal.
pub open spec fn write_action(policy: RetryPolicy, attempt: Attempt, ok: bool) -> WriteAction {
    if ok {
        WriteAction::Delivered
    } else if policy.retry && attempt == Attempt::First {
        WriteAction::Reconnect
    } else {
        WriteAction::Fatal
    }
}

/// Decides what follows a write of a point, given whether it succeeded.
pub fn after_write(policy: RetryPolicy, attempt: Attempt, ok: bool) -> (r: WriteAction)
    ensures
        r == write_action(policy, attempt, ok),
{
    if ok {
        WriteAction::Delivered
    } else if policy.retry && attempt == Attempt::First {
        WriteAction::Reconnect
    } else {
        WriteAction::Fatal
    }
}

} // verus!
