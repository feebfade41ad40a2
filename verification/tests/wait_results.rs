use browser_commander::wait::{SafeEvaluateResult, WaitResult};

#[test]
fn wait_result_completed() {
    let result = WaitResult::completed();
    assert!(result.completed);
    assert!(!result.aborted);
}

#[test]
fn wait_result_aborted() {
    let result = WaitResult::aborted();
    assert!(!result.completed);
    assert!(result.aborted);
}

#[test]
fn safe_evaluate_result_success() {
    let result = SafeEvaluateResult {
        success: true,
        value: serde_json::Value::Number(serde_json::Number::from(42u64)),
        navigation_error: false,
    };
    assert!(result.success);
    assert!(!result.navigation_error);
    assert_eq!(
        result.value,
        serde_json::Value::Number(serde_json::Number::from(42u64))
    );
}

#[test]
fn safe_evaluate_result_navigation_error() {
    let result = SafeEvaluateResult {
        success: false,
        value: serde_json::Value::Null,
        navigation_error: true,
    };
    assert!(!result.success);
    assert!(result.navigation_error);
    assert!(result.value.is_null());
}
