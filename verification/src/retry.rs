//! The bounded-retry combinator shared by the locator engine, the frame
//! context manager and the load-state polling fallback.
//!
//! A retry loop is parameterized by a budget and a fixed sleep interval, and
//! by which errors count as transient. Each failed attempt is classified
//! here: terminal errors surface immediately, transient ones are retried
//! until the budget is spent, and then the loop reports `Timeout` naming
//! the operation and the budget.

use vstd::prelude::*;

use crate::errors::Error;

verus! {

/// The fixed interval between attempts, in milliseconds.
pub const RETRY_INTERVAL_MS: u64 = 100;

/// What a retry loop does after a failed attempt.
#[derive(Debug, Clone, PartialEq, Eq)]
pub enum RetryVerdict {
    /// Sleep for the given number of milliseconds, then try again.
    RetryAfter(u64),
    /// The budget is spent: fail with `Timeout`.
    GiveUp,
    /// The error is terminal: return it unchanged, at once.
    Terminal,
}

/// Decide the next step after an attempt failed with `err`, `elapsed_ms`
/// into a budget of `timeout_ms`.
///
/// Session-closed conditions are never retried; other non-retryable errors
/// surface unchanged as well. A transient error is retried after the fixed
/// interval while budget remains, and gives way to `Timeout` once
/// `elapsed_ms` reaches the budget.
pub fn retry_verdict(err: &Error, elapsed_ms: u64, timeout_ms: u64) -> (r: RetryVerdict)
    ensures
        !err.spec_is_retryable() ==> r == RetryVerdict::Terminal,
        err.spec_is_retryable() && elapsed_ms >= timeout_ms ==> r == RetryVerdict::GiveUp,
        err.spec_is_retryable() && elapsed_ms < timeout_ms ==> r == RetryVerdict::RetryAfter(
            RETRY_INTERVAL_MS,
        ),
{
    if !err.is_retryable() {
        RetryVerdict::Terminal
    } else if elapsed_ms >= timeout_ms {
        RetryVerdict::GiveUp
    } else {
        RetryVerdict::RetryAfter(RETRY_INTERVAL_MS)
    }
}

/// The error a retry loop reports when its budget is spent: `Timeout`,
/// naming the operation and carrying the budget.
pub fn budget_spent_error(operation: String, timeout_ms: u64) -> (r: Error)
    ensures
        r == (Error::Timeout { message: operation, timeout_ms }),
{
    Error::Timeout { message: operation, timeout_ms }
}

/// A session-closed error is returned unchanged by every retry loop, no
/// matter how much budget is left.
pub proof fn lemma_session_closed_is_terminal(err: Error)
    requires
        err.spec_is_session_closed(),
    ensures
        !err.spec_is_retryable(),
{
}

} // verus!
