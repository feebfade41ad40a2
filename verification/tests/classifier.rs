use browser_commander::classify::{is_navigation_error, is_timeout_error, NavigationError, SafeResult};

#[test]
fn is_navigation_error_detects_common_patterns() {
    assert!(is_navigation_error("Page navigated away"));
    assert!(is_navigation_error("Target was detached"));
    assert!(is_navigation_error("Execution context was destroyed"));
    assert!(is_navigation_error("frame was detached"));
    assert!(is_navigation_error("Target closed"));
    assert!(is_navigation_error("page has been closed"));
    assert!(is_navigation_error(
        "Session closed. Most likely the page has been closed."
    ));
    assert!(is_navigation_error("Cannot find context with specified id"));
    assert!(is_navigation_error("Protocol error: Target closed"));
}

#[test]
fn is_navigation_error_case_insensitive() {
    assert!(is_navigation_error("NAVIGATION ERROR"));
    assert!(is_navigation_error("Target Detached"));
    assert!(is_navigation_error("CONTEXT WAS DESTROYED"));
}

#[test]
fn is_navigation_error_false_for_other_errors() {
    assert!(!is_navigation_error("Element not found"));
    assert!(!is_navigation_error("Invalid selector"));
    assert!(!is_navigation_error("Network error"));
}

#[test]
fn is_timeout_error_detects_timeout_patterns() {
    assert!(is_timeout_error("Operation timed out"));
    assert!(is_timeout_error("Timeout exceeded"));
    assert!(is_timeout_error("waiting for selector"));
    assert!(is_timeout_error("Timeout"));
}

#[test]
fn is_timeout_error_false_for_other_errors() {
    assert!(!is_timeout_error("Element not found"));
    assert!(!is_timeout_error("Navigation error"));
}

#[test]
fn classifier_agrees_across_case() {
    assert_eq!(
        is_navigation_error("TARGET DETACHED"),
        is_navigation_error("target detached")
    );
    assert!(is_navigation_error("TARGET DETACHED"));
    assert!(!is_navigation_error("Element not found"));
    assert!(!is_timeout_error("Element not found"));
}

#[test]
fn safe_result_success() {
    let result = SafeResult::success(42);
    assert_eq!(result.value, 42);
    assert!(result.success);
    assert!(!result.navigation_error);
}

#[test]
fn safe_result_navigation_error() {
    let result: SafeResult<i32> = SafeResult::navigation_error();
    assert_eq!(result.value, 0);
    assert!(!result.success);
    assert!(result.navigation_error);
}

#[test]
fn safe_result_error() {
    let result: SafeResult<String> = SafeResult::error("fallback".to_string());
    assert_eq!(result.value, "fallback");
    assert!(!result.success);
    assert!(!result.navigation_error);
}

#[test]
fn navigation_error_messages_render() {
    assert_eq!(
        NavigationError::PageNavigatedAway.message(),
        "Page navigated away during operation"
    );
    assert_eq!(
        NavigationError::Interrupted("tab gone".to_string()).message(),
        "Navigation was interrupted: tab gone"
    );
    assert_eq!(
        NavigationError::Timeout(30000).message(),
        "Navigation timed out after 30000ms"
    );
    assert_eq!(NavigationError::TargetDetached.message(), "Target was detached");
    assert_eq!(
        NavigationError::ExecutionContextDestroyed.message(),
        "Execution context was destroyed"
    );
}
