//! Browser engine abstraction: the engine-control capability trait that
//! every verified operation drives, the engine identifiers, the error
//! type, and the per-interaction result records.

use vstd::prelude::*;
use crate::strutil::{lower_seq, str_eq};
use vstd::string::StringExecFns;

verus! {

/// The type of browser automation engine being used.
#[derive(Debug, Clone, Copy, PartialEq, Eq, Hash, Structural)]
pub enum EngineType {
    /// Chrome DevTools Protocol based engine (similar to Puppeteer)
    Chromiumoxide,
    /// WebDriver-based engine (similar to Playwright's approach)
    Fantoccini,
}

pub open spec fn engine_type_name(e: EngineType) -> Seq<char> {
    match e {
        EngineType::Chromiumoxide => "chromiumoxide"@,
        EngineType::Fantoccini => "fantoccini"@,
    }
}

/// The engine name a string parses to, if any: the comparison is
/// case-insensitive and accepts the protocol aliases.
pub open spec fn engine_type_of_name(s: Seq<char>) -> Option<EngineType> {
    if lower_seq(s) == "chromiumoxide"@ || lower_seq(s) == "cdp"@ || lower_seq(s)
        == "puppeteer"@ {
        Some(EngineType::Chromiumoxide)
    } else if lower_seq(s) == "fantoccini"@ || lower_seq(s) == "webdriver"@ || lower_seq(s)
        == "playwright"@ {
        Some(EngineType::Fantoccini)
    } else {
        None
    }
}

/// The engine names round-trip: rendering an engine's name and
/// parsing it back yields the same engine.
pub proof fn lemma_engine_name_round_trip(e: EngineType)
    ensures
        engine_type_of_name(engine_type_name(e)) == Some(e),
{
    reveal_strlit("chromiumoxide");
    reveal_strlit("fantoccini");
    reveal_strlit("cdp");
    reveal_strlit("puppeteer");
    match e {
        EngineType::Chromiumoxide => {
            assert(lower_seq("chromiumoxide"@) =~= "chromiumoxide"@) by {
                assert forall|i: int| 0 <= i < "chromiumoxide"@.len() implies lower_seq(
                    "chromiumoxide"@,
                )[i] == "chromiumoxide"@[i] by {}
            }
        },
        EngineType::Fantoccini => {
            assert(lower_seq("fantoccini"@) =~= "fantoccini"@) by {
                assert forall|i: int| 0 <= i < "fantoccini"@.len() implies lower_seq(
                    "fantoccini"@,
                )[i] == "fantoccini"@[i] by {}
            }
            assert(lower_seq("fantoccini"@).len() == 10);
            assert("chromiumoxide"@.len() == 13);
            assert("cdp"@.len() == 3);
            assert("puppeteer"@.len() == 9);
        },
    }
}

impl EngineType {
    /// The engine's lower-case name.
    pub fn to_string(&self) -> (r: String)
        ensures
            r@ == engine_type_name(*self),
    {
        match self {
            EngineType::Chromiumoxide => "chromiumoxide".to_owned(),
            EngineType::Fantoccini => "fantoccini".to_owned(),
        }
    }

    /// Parse an engine name, case-insensitively, accepting the aliases
    /// `cdp`/`puppeteer` and `webdriver`/`playwright`.
    pub fn parse_name(s: &str) -> (r: Result<EngineType, EngineError>)
        ensures
            match r {
                Ok(e) => engine_type_of_name(s@) == Some(e),
                Err(err) => engine_type_of_name(s@) is None && (err matches
                    EngineError::InvalidEngine(orig) && orig@ == s@),
            },
    {
        let low_vec = crate::strutil::lower_chars_vec(s);
        let low = crate::strutil::string_from_chars(&low_vec);
        let l = low.as_str();
        if str_eq(l, "chromiumoxide") || str_eq(l, "cdp") || str_eq(l, "puppeteer") {
            Ok(EngineType::Chromiumoxide)
        } else if str_eq(l, "fantoccini") || str_eq(l, "webdriver") || str_eq(l, "playwright") {
            Ok(EngineType::Fantoccini)
        } else {
            Err(EngineError::InvalidEngine(s.to_owned()))
        }
    }
}

impl core::str::FromStr for EngineType {
    type Err = EngineError;

    fn from_str(s: &str) -> Result<Self, EngineError> {
        EngineType::parse_name(s)
    }
}

/// Errors related to browser engine operations.
#[derive(Debug)]
pub enum EngineError {
    /// Invalid engine type specified.
    InvalidEngine(String),
    /// Element not found.
    ElementNotFound(String),
    /// Operation timed out.
    Timeout(String),
    /// Navigation error.
    Navigation(String),
    /// JavaScript evaluation error.
    Evaluation(String),
    /// Generic browser error.
    Browser(String),
}

pub open spec fn engine_error_message_spec(e: EngineError) -> Seq<char> {
    match e {
        EngineError::InvalidEngine(s) => "Invalid engine: "@ + s@
            + ". Expected 'chromiumoxide' or 'fantoccini'"@,
        EngineError::ElementNotFound(s) => "Element not found: "@ + s@,
        EngineError::Timeout(s) => "Operation timed out: "@ + s@,
        EngineError::Navigation(s) => "Navigation error: "@ + s@,
        EngineError::Evaluation(s) => "JavaScript evaluation error: "@ + s@,
        EngineError::Browser(s) => "Browser error: "@ + s@,
    }
}

/// Whether an engine error is classified navigation-transient, going by
/// its rendered message.
pub open spec fn engine_error_is_nav(e: EngineError) -> bool {
    crate::classify::nav_error_spec(engine_error_message_spec(e))
}

impl EngineError {
    /// The human-readable description of this error.
    pub fn message(&self) -> (r: String)
        ensures
            r@ == engine_error_message_spec(*self),
    {
        match self {
            EngineError::InvalidEngine(s) => {
                let mut m = "Invalid engine: ".to_owned();
                m.append(s.as_str());
                m.append(". Expected 'chromiumoxide' or 'fantoccini'");
                m
            },
            EngineError::ElementNotFound(s) => {
                let mut m = "Element not found: ".to_owned();
                m.append(s.as_str());
                m
            },
            EngineError::Timeout(s) => {
                let mut m = "Operation timed out: ".to_owned();
                m.append(s.as_str());
                m
            },
            EngineError::Navigation(s) => {
                let mut m = "Navigation error: ".to_owned();
                m.append(s.as_str());
                m
            },
            EngineError::Evaluation(s) => {
                let mut m = "JavaScript evaluation error: ".to_owned();
                m.append(s.as_str());
                m
            },
            EngineError::Browser(s) => {
                let mut m = "Browser error: ".to_owned();
                m.append(s.as_str());
                m
            },
        }
    }

    /// Whether this error is classified navigation-transient.
    pub fn is_navigation_transient(&self) -> (r: bool)
        ensures
            r == engine_error_is_nav(*self),
    {
        let m = self.message();
        crate::classify::is_navigation_error(m.as_str())
    }
}

/// Result of a click verification.
#[derive(Debug, Clone)]
pub struct ClickVerificationResult {
    /// Whether the click was verified as successful.
    pub verified: bool,
    /// The reason for the verification result.
    pub reason: String,
    /// Whether a navigation error occurred during verification.
    pub navigation_error: bool,
}

/// Result of a scroll verification.
#[derive(Debug, Clone)]
pub struct ScrollVerificationResult {
    /// Whether the scroll was verified as successful.
    pub verified: bool,
    /// Whether the element is in the viewport.
    pub in_viewport: bool,
    /// Number of verification attempts.
    pub attempts: u32,
}

/// Result of a fill verification.
#[derive(Debug, Clone)]
pub struct FillVerificationResult {
    /// Whether the fill was verified as successful.
    pub verified: bool,
    /// The actual value in the element after filling.
    pub actual_value: String,
    /// Number of verification attempts.
    pub attempts: u32,
}

/// Pre-click state captured for verification.
#[derive(Debug, Clone)]
pub struct PreClickState {
    /// Whether the element was disabled.
    pub disabled: Option<bool>,
    /// The aria-pressed attribute value.
    pub aria_pressed: Option<String>,
    /// The aria-expanded attribute value.
    pub aria_expanded: Option<String>,
    /// The aria-selected attribute value.
    pub aria_selected: Option<String>,
    /// Whether the element was checked (for checkboxes).
    pub checked: Option<bool>,
    /// The element's class name.
    pub class_name: Option<String>,
    /// Whether the element is connected to the DOM.
    pub is_connected: bool,
}

pub open spec fn pre_click_state_is_default(s: PreClickState) -> bool {
    &&& s.disabled is None
    &&& s.aria_pressed is None
    &&& s.aria_expanded is None
    &&& s.aria_selected is None
    &&& s.checked is None
    &&& s.class_name is None
    &&& !s.is_connected
}

impl Default for PreClickState {
    /// The all-absent state reported when the element does not exist.
    fn default() -> (r: Self)
        ensures
            pre_click_state_is_default(r),
    {
        PreClickState {
            disabled: None,
            aria_pressed: None,
            aria_expanded: None,
            aria_selected: None,
            checked: None,
            class_name: None,
            is_connected: false,
        }
    }
}

/// The engine-control capability: the sole boundary through which all
/// DOM and browser state is read and mutated.  One implementation
/// exists per supported browser protocol; the verified operations are
/// generic over it and promise what holds of every outcome.  Every
/// method may fail, so nothing is assumed of any call's result.
pub trait EngineAdapter {
    /// Get the engine type.
    fn engine_type(&self) -> EngineType;

    /// Get the current page URL.
    fn url(&self) -> Result<String, EngineError>;

    /// Navigate to a URL.
    fn goto(&self, url: &str) -> Result<(), EngineError>;

    /// Count matching elements.
    fn count(&self, selector: &str) -> Result<usize, EngineError>;

    /// Click an element.
    fn click(&self, selector: &str) -> Result<(), EngineError>;

    /// Fill an input element with text.
    fn fill(&self, selector: &str, text: &str) -> Result<(), EngineError>;

    /// Type text into an element (simulating key presses).
    fn type_text(&self, selector: &str, text: &str) -> Result<(), EngineError>;

    /// Get the text content of an element.
    fn text_content(&self, selector: &str) -> Result<Option<String>, EngineError>;

    /// Get the value of an input element.
    fn input_value(&self, selector: &str) -> Result<Option<String>, EngineError>;

    /// Get an attribute value from an element.
    fn get_attribute(&self, selector: &str, attribute: &str) -> Result<
        Option<String>,
        EngineError,
    >;

    /// Check if an element is visible.
    fn is_visible(&self, selector: &str) -> Result<bool, EngineError>;

    /// Check if an element is enabled.
    fn is_enabled(&self, selector: &str) -> Result<bool, EngineError>;

    /// Wait for a selector to appear.
    fn wait_for_selector(&self, selector: &str, timeout_ms: u64) -> Result<(), EngineError>;

    /// Scroll an element into view.
    fn scroll_into_view(&self, selector: &str) -> Result<(), EngineError>;

    /// Evaluate JavaScript in the page context.
    fn evaluate(&self, script: &str) -> Result<serde_json::Value, EngineError>;

    /// Take a screenshot.
    fn screenshot(&self) -> Result<Vec<u8>, EngineError>;

    /// Bring the page to front.
    fn bring_to_front(&self) -> Result<(), EngineError>;

    /// Wait for navigation to complete.
    fn wait_for_navigation(&self, timeout_ms: u64) -> Result<(), EngineError>;
}

/// The pacing capability: wall-clock time and cooperative yielding
/// between polling samples.  The host supplies it alongside the engine
/// control; nothing is assumed of the clock, so every polling loop also
/// carries an attempt budget that bounds it even under a stalled clock.
pub trait Clock {
    /// Milliseconds of wall-clock time, from an arbitrary origin.
    fn now_ms(&self) -> u64;

    /// Yield for roughly the given number of milliseconds.
    fn sleep_ms(&self, ms: u64);
}

} // verus!
