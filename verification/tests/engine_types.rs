use browser_commander::engine::{
    ClickVerificationResult, EngineError, EngineType, PreClickState,
};

#[test]
fn engine_type_display() {
    assert_eq!(EngineType::Chromiumoxide.to_string(), "chromiumoxide");
    assert_eq!(EngineType::Fantoccini.to_string(), "fantoccini");
}

#[test]
fn engine_type_from_str() {
    assert_eq!(
        "chromiumoxide".parse::<EngineType>().unwrap(),
        EngineType::Chromiumoxide
    );
    assert_eq!(
        "cdp".parse::<EngineType>().unwrap(),
        EngineType::Chromiumoxide
    );
    assert_eq!(
        "puppeteer".parse::<EngineType>().unwrap(),
        EngineType::Chromiumoxide
    );
    assert_eq!(
        "fantoccini".parse::<EngineType>().unwrap(),
        EngineType::Fantoccini
    );
    assert_eq!(
        "webdriver".parse::<EngineType>().unwrap(),
        EngineType::Fantoccini
    );
    assert_eq!(
        "playwright".parse::<EngineType>().unwrap(),
        EngineType::Fantoccini
    );
}

#[test]
fn engine_type_from_str_case_insensitive() {
    assert_eq!(
        "CHROMIUMOXIDE".parse::<EngineType>().unwrap(),
        EngineType::Chromiumoxide
    );
    assert_eq!(
        "Fantoccini".parse::<EngineType>().unwrap(),
        EngineType::Fantoccini
    );
}

#[test]
fn engine_type_from_str_invalid() {
    let result = "invalid".parse::<EngineType>();
    assert!(result.is_err());
    if let Err(EngineError::InvalidEngine(name)) = result {
        assert_eq!(name, "invalid");
    } else {
        panic!("Expected InvalidEngine error");
    }
}

#[test]
fn engine_pre_click_state_default() {
    let state = PreClickState::default();
    assert!(state.disabled.is_none());
    assert!(state.aria_pressed.is_none());
    assert!(!state.is_connected);
}

#[test]
fn click_verification_result_creation() {
    let result = ClickVerificationResult {
        verified: true,
        reason: "element state changed".to_string(),
        navigation_error: false,
    };
    assert!(result.verified);
    assert!(!result.navigation_error);
}

#[test]
fn engine_error_messages_render() {
    assert_eq!(
        EngineError::InvalidEngine("x".to_string()).message(),
        "Invalid engine: x. Expected 'chromiumoxide' or 'fantoccini'"
    );
    assert_eq!(
        EngineError::ElementNotFound("#a".to_string()).message(),
        "Element not found: #a"
    );
    assert_eq!(
        EngineError::Timeout("click".to_string()).message(),
        "Operation timed out: click"
    );
    assert_eq!(
        EngineError::Navigation("lost".to_string()).message(),
        "Navigation error: lost"
    );
    assert_eq!(
        EngineError::Evaluation("bad".to_string()).message(),
        "JavaScript evaluation error: bad"
    );
    assert_eq!(
        EngineError::Browser("crash".to_string()).message(),
        "Browser error: crash"
    );
}

#[test]
fn engine_error_classification() {
    assert!(EngineError::Navigation("context was destroyed".to_string()).is_navigation_transient());
    // The Navigation variant's own prefix already names a navigation condition.
    assert!(EngineError::Navigation("anything".to_string()).is_navigation_transient());
    assert!(!EngineError::Browser("out of memory".to_string()).is_navigation_transient());
    assert!(EngineError::Browser("Target closed".to_string()).is_navigation_transient());
}

#[test]
fn engine_type_name_round_trips() {
    for e in [EngineType::Chromiumoxide, EngineType::Fantoccini] {
        assert_eq!(e.to_string().parse::<EngineType>().unwrap(), e);
    }
}
