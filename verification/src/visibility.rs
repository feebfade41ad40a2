//! Element visibility checks through the engine capability.
//!
//! The geometric viewport tests live with the host: they compute over
//! floating-point bounding boxes, which the verified library does not
//! hold.

use vstd::prelude::*;
use crate::engine::{EngineAdapter, EngineError};

verus! {

/// Options for checking element visibility.
#[derive(Debug, Clone)]
pub struct VisibilityOptions {
    /// The selector for the element to check.
    pub selector: String,
    /// Timeout for the visibility check in milliseconds.
    pub timeout_ms: Option<u64>,
}

/// Result of a visibility check.
#[derive(Debug, Clone)]
pub struct VisibilityResult {
    /// Whether the element is visible.
    pub visible: bool,
    /// Whether the element is present in the DOM.
    pub present: bool,
    /// Whether the element is in the viewport.
    pub in_viewport: bool,
}

/// Check if an element is visible.
pub fn is_visible<A: EngineAdapter>(adapter: &A, selector: &str) -> Result<bool, EngineError> {
    adapter.is_visible(selector)
}

/// Check if an element is enabled (for form elements).
pub fn is_enabled<A: EngineAdapter>(adapter: &A, selector: &str) -> Result<bool, EngineError> {
    adapter.is_enabled(selector)
}

/// Count the number of elements matching a selector.
pub fn count<A: EngineAdapter>(adapter: &A, selector: &str) -> Result<usize, EngineError> {
    adapter.count(selector)
}

} // verus!
