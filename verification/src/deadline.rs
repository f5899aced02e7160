//! Deadline enforcer: bounds handler execution under a fixed wall-clock
//! budget. A handler result that arrives within the budget passes through
//! unchanged; once the budget elapses the result is abandoned and the caller
//! receives a uniform timeout failure at the budget's expiry, not later.

use crate::failure::FailureKind;
use vstd::prelude::*;

verus! {

/// What the deadline enforcer hands back for one downstream call: the result
/// the caller sees and the wall-clock time, in milliseconds, at which it was
/// produced (measured from the start of the wait).
pub struct EnforcedResult {
    pub result: Result<u16, FailureKind>,
    pub elapsed_ms: u64,
}

/// Decides the outcome of waiting on a downstream call under `budget_ms`.
///
/// `handler_ms` is how long the downstream call runs; `handler_result` is
/// what it returns (its own status on success, or a failure it raised). If
/// the call finishes within the budget its result passes through unchanged
/// after `handler_ms`. Otherwise the result is discarded and the caller gets
/// `TimedOut` when the budget expires — at `budget_ms`, regardless of how
/// much longer the call would have run.
pub fn enforce_deadline(
    budget_ms: u64,
    handler_ms: u64,
    handler_result: Result<u16, FailureKind>,
) -> (r: EnforcedResult)
    ensures
        handler_ms <= budget_ms ==> r.result == handler_result && r.elapsed_ms == handler_ms,
        handler_ms > budget_ms ==> r.result == Result::<u16, FailureKind>::Err(
            FailureKind::TimedOut,
        ) && r.elapsed_ms == budget_ms,
        r.elapsed_ms <= budget_ms,
{
    if handler_ms <= budget_ms {
        EnforcedResult { result: handler_result, elapsed_ms: handler_ms }
    } else {
        EnforcedResult { result: Err(FailureKind::TimedOut), elapsed_ms: budget_ms }
    }
}

} // verus!
