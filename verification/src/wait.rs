//! Wait results and script evaluation helpers.
//!
//! The wait result record supports cooperative cancellation: a wait is
//! either completed or aborted, never both.  The timed waits
//! themselves are host work; the library holds their outcome.

use vstd::prelude::*;
use crate::engine::{EngineAdapter, EngineError};

verus! {

/// Result of a wait operation.
#[derive(Debug, Clone)]
pub struct WaitResult {
    /// Whether the wait completed normally.
    pub completed: bool,
    /// Whether the wait was aborted.
    pub aborted: bool,
}

impl WaitResult {
    /// Create a completed result.
    pub fn completed() -> (r: Self)
        ensures
            r.completed,
            !r.aborted,
    {
        WaitResult { completed: true, aborted: false }
    }

    /// Create an aborted result.
    pub fn aborted() -> (r: Self)
        ensures
            !r.completed,
            r.aborted,
    {
        WaitResult { completed: false, aborted: true }
    }
}

/// Evaluate JavaScript in the page context.
pub fn evaluate<A: EngineAdapter>(adapter: &A, script: &str) -> Result<
    serde_json::Value,
    EngineError,
> {
    adapter.evaluate(script)
}

/// Result of a safe evaluate operation.
#[derive(Debug)]
pub struct SafeEvaluateResult {
    /// Whether the evaluation succeeded.
    pub success: bool,
    /// The value (actual result or default).
    pub value: serde_json::Value,
    /// Whether a navigation error occurred.
    pub navigation_error: bool,
}

/// Evaluate a script, absorbing failures: on any error the default
/// value is carried instead, and the navigation flag records whether
/// the failure was a navigation-transient one.
pub fn safe_evaluate<A: EngineAdapter>(
    adapter: &A,
    script: &str,
    default: serde_json::Value,
) -> (r: SafeEvaluateResult)
    ensures
        r.success ==> !r.navigation_error,
        !r.success ==> r.value == default,
{
    match adapter.evaluate(script) {
        Ok(value) => SafeEvaluateResult { success: true, value, navigation_error: false },
        Err(e) => {
            if e.is_navigation_transient() {
                SafeEvaluateResult { success: false, value: default, navigation_error: true }
            } else {
                SafeEvaluateResult { success: false, value: default, navigation_error: false }
            }
        },
    }
}

} // verus!
