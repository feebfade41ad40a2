//! The error classifier: a pure, case-insensitive substring matcher that
//! turns an error message into navigation-transient / timeout / other.
//!
//! Navigation-transient errors are expected during browser automation
//! when pages navigate away during operations; callers absorb them into
//! structured results instead of propagating them.

use vstd::prelude::*;
use crate::strutil::{
    lower_chars_vec, lower_seq, spec_contains, vec_contains_str, lemma_lower_seq_idempotent,
    dec_str, u64_to_string,
};
use vstd::string::StringExecFns;

verus! {

/// An already lower-cased message contains one of the fixed
/// navigation-transient patterns.
pub open spec fn nav_pattern_hit(low: Seq<char>) -> bool {
    ||| spec_contains(low, "navigat"@)
    ||| spec_contains(low, "detached"@)
    ||| spec_contains(low, "context was destroyed"@)
    ||| spec_contains(low, "execution context was destroyed"@)
    ||| spec_contains(low, "frame was detached"@)
    ||| spec_contains(low, "target closed"@)
    ||| spec_contains(low, "page has been closed"@)
    ||| spec_contains(low, "session closed"@)
    ||| spec_contains(low, "cannot find context"@)
    ||| spec_contains(low, "protocol error"@)
}

/// An already lower-cased message contains one of the fixed timeout
/// patterns.
pub open spec fn timeout_pattern_hit(low: Seq<char>) -> bool {
    ||| spec_contains(low, "timed out"@)
    ||| spec_contains(low, "timeout"@)
    ||| spec_contains(low, "exceeded"@)
    ||| spec_contains(low, "waiting for"@)
}

/// A message names a navigation-transient condition: it contains one of
/// the fixed patterns, compared case-insensitively.
pub open spec fn nav_error_spec(m: Seq<char>) -> bool {
    nav_pattern_hit(lower_seq(m))
}

/// A message names a timeout condition.
pub open spec fn timeout_error_spec(m: Seq<char>) -> bool {
    timeout_pattern_hit(lower_seq(m))
}

/// Check if an error message indicates a navigation error.
pub fn is_navigation_error(error_message: &str) -> (r: bool)
    ensures
        r == nav_error_spec(error_message@),
{
    let low = lower_chars_vec(error_message);
    vec_contains_str(&low, "navigat") || vec_contains_str(&low, "detached") || vec_contains_str(
        &low,
        "context was destroyed",
    ) || vec_contains_str(&low, "execution context was destroyed") || vec_contains_str(
        &low,
        "frame was detached",
    ) || vec_contains_str(&low, "target closed") || vec_contains_str(&low, "page has been closed")
        || vec_contains_str(&low, "session closed") || vec_contains_str(&low, "cannot find context")
        || vec_contains_str(&low, "protocol error")
}

/// Check if an error message indicates a timeout error.
pub fn is_timeout_error(error_message: &str) -> (r: bool)
    ensures
        r == timeout_error_spec(error_message@),
{
    let low = lower_chars_vec(error_message);
    vec_contains_str(&low, "timed out") || vec_contains_str(&low, "timeout") || vec_contains_str(
        &low,
        "exceeded",
    ) || vec_contains_str(&low, "waiting for")
}

/// The classifier is case-insensitive: a message and its lower-cased
/// form are classified alike, for both pattern sets.
pub proof fn lemma_classifier_case_insensitive(m: Seq<char>)
    ensures
        nav_error_spec(lower_seq(m)) == nav_error_spec(m),
        timeout_error_spec(lower_seq(m)) == timeout_error_spec(m),
{
    lemma_lower_seq_idempotent(m);
}

/// Errors related to navigation operations.
#[derive(Debug)]
pub enum NavigationError {
    /// The page was navigated away during an operation.
    PageNavigatedAway,
    /// Navigation was interrupted.
    Interrupted(String),
    /// Navigation timed out.
    Timeout(u64),
    /// Target was detached (e.g., tab closed).
    TargetDetached,
    /// Execution context was destroyed.
    ExecutionContextDestroyed,
}

pub open spec fn navigation_error_message_spec(e: NavigationError) -> Seq<char> {
    match e {
        NavigationError::PageNavigatedAway => "Page navigated away during operation"@,
        NavigationError::Interrupted(s) => "Navigation was interrupted: "@ + s@,
        NavigationError::Timeout(ms) => "Navigation timed out after "@ + dec_str(ms as int)
            + "ms"@,
        NavigationError::TargetDetached => "Target was detached"@,
        NavigationError::ExecutionContextDestroyed => "Execution context was destroyed"@,
    }
}

impl NavigationError {
    /// The human-readable description of this error.
    pub fn message(&self) -> (r: String)
        ensures
            r@ == navigation_error_message_spec(*self),
    {
        match self {
            NavigationError::PageNavigatedAway => "Page navigated away during operation".to_owned(),
            NavigationError::Interrupted(s) => {
                let mut m = "Navigation was interrupted: ".to_owned();
                m.append(s.as_str());
                m
            },
            NavigationError::Timeout(ms) => {
                let mut m = "Navigation timed out after ".to_owned();
                let d = u64_to_string(*ms);
                m.append(d.as_str());
                m.append("ms");
                m
            },
            NavigationError::TargetDetached => "Target was detached".to_owned(),
            NavigationError::ExecutionContextDestroyed => {
                "Execution context was destroyed".to_owned()
            },
        }
    }
}

/// Result wrapper that includes navigation error information.
#[derive(Debug)]
pub struct SafeResult<T> {
    /// The operation result value.
    pub value: T,
    /// Whether the operation was successful.
    pub success: bool,
    /// Whether a navigation error occurred.
    pub navigation_error: bool,
}

impl<T: Default> SafeResult<T> {
    /// Create a successful result.
    pub fn success(value: T) -> (r: Self)
        ensures
            r.value == value,
            r.success,
            !r.navigation_error,
    {
        Self { value, success: true, navigation_error: false }
    }

    /// Create a result from a navigation error, carrying the default value.
    pub fn navigation_error() -> (r: Self)
        ensures
            !r.success,
            r.navigation_error,
    {
        Self { value: T::default(), success: false, navigation_error: true }
    }

    /// Create a result from a general error.
    pub fn error(value: T) -> (r: Self)
        ensures
            r.value == value,
            !r.success,
            !r.navigation_error,
    {
        Self { value, success: false, navigation_error: false }
    }
}

} // verus!
