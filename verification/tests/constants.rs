use browser_commander::timing::{chrome_args, Timing};

#[test]
fn chrome_args_is_not_empty() {
    assert!(!chrome_args().is_empty());
}

#[test]
fn chrome_args_contains_expected_arguments() {
    let args = chrome_args();
    assert!(args.contains(&"--disable-infobars".to_string()));
    assert!(args.contains(&"--no-first-run".to_string()));
    assert!(args.contains(&"--no-default-browser-check".to_string()));
}

#[test]
fn chrome_args_contains_crash_related_flags() {
    let args = chrome_args();
    assert!(args.contains(&"--disable-session-crashed-bubble".to_string()));
    assert!(args.contains(&"--hide-crash-restore-bubble".to_string()));
    assert!(args.contains(&"--disable-crash-restore".to_string()));
}

#[test]
fn chrome_args_has_at_least_5_arguments() {
    assert!(chrome_args().len() >= 5);
}

#[test]
fn timing_default_values_are_reasonable() {
    let timing = Timing::default();

    // All timeouts should be positive
    assert!(timing.scroll_animation_wait > 0);
    assert!(timing.default_wait_after_scroll > 0);
    assert!(timing.visibility_check_timeout > 0);
    assert!(timing.default_timeout > 0);
    assert!(timing.navigation_timeout > 0);
    assert!(timing.verification_timeout > 0);
    assert!(timing.verification_retry_interval > 0);

    // Navigation timeout should be longer than default timeout
    assert!(timing.navigation_timeout > timing.default_timeout);
}

#[test]
fn timing_scroll_animation_wait_is_300ms() {
    let timing = Timing::default();
    assert_eq!(timing.scroll_animation_wait, 300);
}

#[test]
fn timing_default_wait_after_scroll_is_1000ms() {
    let timing = Timing::default();
    assert_eq!(timing.default_wait_after_scroll, 1000);
}

#[test]
fn timing_visibility_check_timeout_is_100ms() {
    let timing = Timing::default();
    assert_eq!(timing.visibility_check_timeout, 100);
}

#[test]
fn timing_default_timeout_is_5000ms() {
    let timing = Timing::default();
    assert_eq!(timing.default_timeout, 5000);
}

#[test]
fn timing_navigation_timeout_is_30000ms() {
    let timing = Timing::default();
    assert_eq!(timing.navigation_timeout, 30000);
}
