use browser_commander::navigate::{
    check_url_sample, NavigationOptions, NavigationResult, WaitUntil,
};

#[test]
fn navigation_options_default() {
    let options = NavigationOptions::default();
    assert_eq!(options.wait_until, WaitUntil::DomContentLoaded);
    assert!(options.wait_for_stable_url_before);
    assert!(options.wait_for_stable_url_after);
    assert!(options.verify);
    assert_eq!(options.stable_checks, 3);
}

#[test]
fn wait_until_display() {
    assert_eq!(WaitUntil::DomContentLoaded.to_string(), "domcontentloaded");
    assert_eq!(WaitUntil::Load.to_string(), "load");
    assert_eq!(WaitUntil::NetworkIdle.to_string(), "networkidle");
}

#[test]
fn navigation_result_success() {
    let result = NavigationResult::success("https://example.com".to_string());
    assert!(result.navigated);
    assert!(result.verified);
    assert_eq!(result.actual_url, Some("https://example.com".to_string()));
}

#[test]
fn navigation_result_interrupted() {
    let result = NavigationResult::interrupted("page was closed");
    assert!(!result.navigated);
    assert!(!result.verified);
    assert!(result.actual_url.is_none());
    assert_eq!(result.reason, Some("page was closed".to_string()));
}

#[test]
fn check_url_sample_decides_each_reason() {
    assert_eq!(
        check_url_sample(Some("https://a.com"), "", "https://a.com"),
        Some("exact URL match".to_string())
    );
    assert_eq!(
        check_url_sample(Some("https://a.com"), "", "https://a.com/x"),
        Some("URL pattern match".to_string())
    );
    assert_eq!(check_url_sample(Some("https://b.com"), "", "https://a.com"), None);
    assert_eq!(
        check_url_sample(None, "https://start.com", "https://other.com"),
        Some("URL changed from start".to_string())
    );
    assert_eq!(check_url_sample(None, "https://start.com", "https://start.com"), None);
}
