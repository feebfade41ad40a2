use browser_commander::click::{ClickOptions, ClickResult};
use browser_commander::engine::PreClickState;
use browser_commander::fill::{FillOptions, FillResult};
use browser_commander::scroll::{ScrollBehavior, ScrollOptions, ScrollResult};

#[test]
fn click_options_default() {
    let options = ClickOptions::default();
    assert!(options.scroll_into_view);
    assert_eq!(options.scroll_behavior, ScrollBehavior::Smooth);
    assert!(options.verify);
}

#[test]
fn click_result_success() {
    let result = ClickResult::success("element clicked");
    assert!(result.clicked);
    assert!(result.verified);
    assert!(!result.navigated);
    assert_eq!(result.reason, "element clicked");
}

#[test]
fn click_result_navigation() {
    let result = ClickResult::navigation("page navigated");
    assert!(!result.clicked);
    assert!(result.verified);
    assert!(result.navigated);
}

#[test]
fn click_result_failed() {
    let result = ClickResult::failed("element not found");
    assert!(!result.clicked);
    assert!(!result.verified);
    assert!(!result.navigated);
}

#[test]
fn click_pre_click_state_default() {
    let state = PreClickState::default();
    assert!(state.disabled.is_none());
    assert!(state.aria_pressed.is_none());
    assert!(!state.is_connected);
}

#[test]
fn fill_options_default() {
    let options = FillOptions::default();
    assert!(options.scroll_into_view);
    assert!(options.simulate_typing);
    assert!(options.check_empty);
    assert!(options.verify);
}

#[test]
fn fill_result_success() {
    let result = FillResult::success("filled text".to_string());
    assert!(result.filled);
    assert!(result.verified);
    assert!(!result.skipped);
    assert_eq!(result.actual_value, Some("filled text".to_string()));
}

#[test]
fn fill_result_skipped() {
    let result = FillResult::skipped("existing text".to_string());
    assert!(!result.filled);
    assert!(!result.verified);
    assert!(result.skipped);
    assert_eq!(result.actual_value, Some("existing text".to_string()));
}

#[test]
fn fill_result_failed() {
    let result = FillResult::failed();
    assert!(!result.filled);
    assert!(!result.verified);
    assert!(!result.skipped);
    assert!(result.actual_value.is_none());
}

#[test]
fn scroll_behavior_display() {
    assert_eq!(ScrollBehavior::Smooth.to_string(), "smooth");
    assert_eq!(ScrollBehavior::Instant.to_string(), "instant");
}

#[test]
fn scroll_options_default() {
    let options = ScrollOptions::default();
    assert_eq!(options.behavior, ScrollBehavior::Smooth);
    assert!(options.verify);
    assert_eq!(options.threshold_percent, 10);
}

#[test]
fn scroll_result_skipped() {
    let result = ScrollResult::skipped();
    assert!(!result.scrolled);
    assert!(result.verified);
    assert!(result.skipped);
}

#[test]
fn scroll_result_performed() {
    let result = ScrollResult::performed(true);
    assert!(result.scrolled);
    assert!(result.verified);
    assert!(!result.skipped);

    let result = ScrollResult::performed(false);
    assert!(result.scrolled);
    assert!(!result.verified);
    assert!(!result.skipped);
}

#[test]
fn scroll_result_failed() {
    let result = ScrollResult::failed();
    assert!(!result.scrolled);
    assert!(!result.verified);
    assert!(!result.skipped);
}
