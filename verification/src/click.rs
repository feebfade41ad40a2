//! Click operations: pre-click state capture, the capture-act-compare
//! click verifier, and the high-level click with scrolling and settle
//! waits.
//!
//! The comparison policy is deliberately optimistic: every reachable
//! comparison path reports a verified click; only an early
//! navigation-transient error yields the navigation outcome.

use vstd::prelude::*;
use crate::engine::{
    pre_click_state_is_default, Clock, ClickVerificationResult, EngineAdapter, EngineError,
    PreClickState,
};
use crate::jsonv::{
    json_as_bool, json_as_string, json_bool_spec, json_get, json_is_null, json_is_null_spec,
    json_member_spec, json_string_spec,
};
use crate::scroll::{scroll_into_view_if_needed, ScrollBehavior, ScrollOptions};
use crate::strutil::{esc_squote, escape_squotes, opt_string_view, str_eq, string_from_chars};
use vstd::string::StringExecFns;

verus! {

/// Options for click operations.  Durations are milliseconds.
#[derive(Debug, Clone)]
pub struct ClickOptions {
    /// Whether to scroll the element into view before clicking.
    pub scroll_into_view: bool,
    /// Scroll behavior (smooth or instant).
    pub scroll_behavior: ScrollBehavior,
    /// Wait time after scrolling.
    pub wait_after_scroll: u64,
    /// Wait time after clicking.
    pub wait_after_click: u64,
    /// Whether to verify the click operation.
    pub verify: bool,
    /// Timeout for the click operation.
    pub timeout: u64,
}

pub open spec fn click_options_default_spec(o: ClickOptions) -> bool {
    &&& o.scroll_into_view
    &&& o.scroll_behavior == ScrollBehavior::Smooth
    &&& o.wait_after_scroll == 1000
    &&& o.wait_after_click == 1000
    &&& o.verify
    &&& o.timeout == 5000
}

impl Default for ClickOptions {
    fn default() -> (r: Self)
        ensures
            click_options_default_spec(r),
    {
        ClickOptions {
            scroll_into_view: true,
            scroll_behavior: ScrollBehavior::Smooth,
            wait_after_scroll: 1000,
            wait_after_click: 1000,
            verify: true,
            timeout: 5000,
        }
    }
}

/// Result of a click operation.
#[derive(Debug, Clone)]
pub struct ClickResult {
    /// Whether the click was performed.
    pub clicked: bool,
    /// Whether the click was verified as successful.
    pub verified: bool,
    /// Whether navigation was detected.
    pub navigated: bool,
    /// The reason for the result.
    pub reason: String,
}

impl ClickResult {
    /// Create a successful click result.
    pub fn success(reason: &str) -> (r: Self)
        ensures
            r.clicked,
            r.verified,
            !r.navigated,
            r.reason@ == reason@,
    {
        ClickResult { clicked: true, verified: true, navigated: false, reason: reason.to_owned() }
    }

    /// Create a result indicating navigation occurred.
    pub fn navigation(reason: &str) -> (r: Self)
        ensures
            !r.clicked,
            r.verified,
            r.navigated,
            r.reason@ == reason@,
    {
        ClickResult { clicked: false, verified: true, navigated: true, reason: reason.to_owned() }
    }

    /// Create a failed click result.
    pub fn failed(reason: &str) -> (r: Self)
        ensures
            !r.clicked,
            !r.verified,
            !r.navigated,
            r.reason@ == reason@,
    {
        ClickResult { clicked: false, verified: false, navigated: false, reason: reason.to_owned() }
    }
}

/// The reason the comparison reports, in precedence order: the first
/// changed field wins; an unchanged, still-connected element is an
/// assumed success; a removed element counts as a UI update.
pub open spec fn click_compare_reason(pre: PreClickState, post: PreClickState) -> Seq<char> {
    if opt_string_view(pre.aria_pressed) != opt_string_view(post.aria_pressed) {
        "aria-pressed changed"@
    } else if opt_string_view(pre.aria_expanded) != opt_string_view(post.aria_expanded) {
        "aria-expanded changed"@
    } else if opt_string_view(pre.aria_selected) != opt_string_view(post.aria_selected) {
        "aria-selected changed"@
    } else if pre.checked != post.checked {
        "checked state changed"@
    } else if opt_string_view(pre.class_name) != opt_string_view(post.class_name) {
        "className changed"@
    } else if post.is_connected {
        "element still connected (assumed success)"@
    } else {
        "element removed from DOM (UI updated)"@
    }
}

/// A reason the state comparison can produce.
pub open spec fn is_click_compare_reason(s: Seq<char>) -> bool {
    ||| s == "aria-pressed changed"@
    ||| s == "aria-expanded changed"@
    ||| s == "aria-selected changed"@
    ||| s == "checked state changed"@
    ||| s == "className changed"@
    ||| s == "element still connected (assumed success)"@
    ||| s == "element removed from DOM (UI updated)"@
}

/// A changed aria-pressed attribute wins the comparison outright:
/// whenever the attribute differs between the snapshots — as when it
/// flips "false" to "true" — the comparison verifies with the reason
/// naming aria-pressed, whatever the other fields hold.
pub proof fn lemma_aria_pressed_change_reported(pre: PreClickState, post: PreClickState)
    requires
        opt_string_view(pre.aria_pressed) != opt_string_view(post.aria_pressed),
    ensures
        click_compare_reason(pre, post) == "aria-pressed changed"@,
{
}

fn opt_string_eq(a: &Option<String>, b: &Option<String>) -> (r: bool)
    ensures
        r == (opt_string_view(*a) == opt_string_view(*b)),
{
    match (a, b) {
        (Some(x), Some(y)) => str_eq(x.as_str(), y.as_str()),
        (None, None) => true,
        _ => false,
    }
}

fn opt_bool_eq(a: &Option<bool>, b: &Option<bool>) -> (r: bool)
    ensures
        r == (*a == *b),
{
    match (a, b) {
        (Some(x), Some(y)) => *x == *y,
        (None, None) => true,
        _ => false,
    }
}

/// Compare a pre-click and a post-click snapshot.
///
/// Every comparison path verifies the click; the reason names the
/// first field found changed, in the fixed precedence order, so an
/// aria-pressed flip is reported as "aria-pressed changed".
pub fn compare_click_states(pre: &PreClickState, post: &PreClickState) -> (r:
    ClickVerificationResult)
    ensures
        r.verified,
        !r.navigation_error,
        r.reason@ == click_compare_reason(*pre, *post),
        is_click_compare_reason(r.reason@),
{
    let reason: &str = if !opt_string_eq(&pre.aria_pressed, &post.aria_pressed) {
        "aria-pressed changed"
    } else if !opt_string_eq(&pre.aria_expanded, &post.aria_expanded) {
        "aria-expanded changed"
    } else if !opt_string_eq(&pre.aria_selected, &post.aria_selected) {
        "aria-selected changed"
    } else if !opt_bool_eq(&pre.checked, &post.checked) {
        "checked state changed"
    } else if !opt_string_eq(&pre.class_name, &post.class_name) {
        "className changed"
    } else if post.is_connected {
        "element still connected (assumed success)"
    } else {
        "element removed from DOM (UI updated)"
    };
    ClickVerificationResult { verified: true, reason: reason.to_owned(), navigation_error: false }
}

/// The boolean member of a JSON object under a key, when both exist.
pub open spec fn member_bool(v: serde_json::Value, key: Seq<char>) -> Option<bool> {
    match json_member_spec(v, key) {
        Some(m) => json_bool_spec(m),
        None => None,
    }
}

/// The string member of a JSON object under a key, when both exist.
pub open spec fn member_string(v: serde_json::Value, key: Seq<char>) -> Option<Seq<char>> {
    match json_member_spec(v, key) {
        Some(m) => json_string_spec(m),
        None => None,
    }
}

/// How a captured element-state payload decodes: a null payload (no
/// such element) decodes to the all-absent default; anything else
/// decodes field by field from the documented member names, with the
/// connected flag defaulting to false.
pub open spec fn element_state_decoded(v: serde_json::Value, s: PreClickState) -> bool {
    if json_is_null_spec(v) {
        pre_click_state_is_default(s)
    } else {
        &&& s.disabled == member_bool(v, "disabled"@)
        &&& opt_string_view(s.aria_pressed) == member_string(v, "ariaPressed"@)
        &&& opt_string_view(s.aria_expanded) == member_string(v, "ariaExpanded"@)
        &&& opt_string_view(s.aria_selected) == member_string(v, "ariaSelected"@)
        &&& s.checked == member_bool(v, "checked"@)
        &&& opt_string_view(s.class_name) == member_string(v, "className"@)
        &&& s.is_connected == (member_bool(v, "isConnected"@) == Some(true))
    }
}

/// The state-capture script for a selector: one function expression
/// querying the (quote-escaped) selector and reading the fixed
/// attribute set, or yielding null when the element is absent.
pub open spec fn element_state_script_spec(selector: Seq<char>) -> Seq<char> {
    "(function() { const el = document.querySelector('"@ + esc_squote(selector)
        + "'); if (!el) return null; return { disabled: el.disabled || false, ariaPressed: el.getAttribute('aria-pressed'), ariaExpanded: el.getAttribute('aria-expanded'), ariaSelected: el.getAttribute('aria-selected'), checked: el.checked || false, className: el.className || '', isConnected: el.isConnected }; })()"@
}

/// Build the state-capture script for a selector.
pub fn element_state_script(selector: &str) -> (r: String)
    ensures
        r@ == element_state_script_spec(selector@),
{
    let escaped = string_from_chars(&escape_squotes(selector));
    let mut script = "(function() { const el = document.querySelector('".to_owned();
    script.append(escaped.as_str());
    script.append(
        "'); if (!el) return null; return { disabled: el.disabled || false, ariaPressed: el.getAttribute('aria-pressed'), ariaExpanded: el.getAttribute('aria-expanded'), ariaSelected: el.getAttribute('aria-selected'), checked: el.checked || false, className: el.className || '', isConnected: el.isConnected }; })()",
    );
    script
}

/// Decode one captured element-state payload into a snapshot.
pub fn decode_element_state(result: &serde_json::Value) -> (r: PreClickState)
    ensures
        element_state_decoded(*result, r),
{
    if json_is_null(result) {
        return PreClickState::default();
    }
    let disabled = match json_get(result, "disabled") {
        Some(v) => json_as_bool(v),
        None => None,
    };
    let aria_pressed = match json_get(result, "ariaPressed") {
        Some(v) => json_as_string(v),
        None => None,
    };
    let aria_expanded = match json_get(result, "ariaExpanded") {
        Some(v) => json_as_string(v),
        None => None,
    };
    let aria_selected = match json_get(result, "ariaSelected") {
        Some(v) => json_as_string(v),
        None => None,
    };
    let checked = match json_get(result, "checked") {
        Some(v) => json_as_bool(v),
        None => None,
    };
    let class_name = match json_get(result, "className") {
        Some(v) => json_as_string(v),
        None => None,
    };
    let is_connected = match json_get(result, "isConnected") {
        Some(v) => match json_as_bool(v) {
            Some(b) => b,
            None => false,
        },
        None => false,
    };
    PreClickState {
        disabled,
        aria_pressed,
        aria_expanded,
        aria_selected,
        checked,
        class_name,
        is_connected,
    }
}

/// Capture the pre-click state of an element for verification.
///
/// One script-evaluation round trip with the stated capture script
/// reads the fixed attribute set; an absent element yields the
/// all-absent default rather than failing.  Beside the result it
/// returns, as ghost values, the script it evaluated and the payload
/// that came back: every returned snapshot is the stated decoding of
/// that payload.
pub fn capture_pre_click_state<A: EngineAdapter>(adapter: &A, selector: &str) -> (r: (
    Result<PreClickState, EngineError>,
    Ghost<(Seq<char>, Option<serde_json::Value>)>,
))
    ensures
        r.1@.0 == element_state_script_spec(selector@),
        r.0 matches Ok(s) ==> (r.1@.1 matches Some(v) && element_state_decoded(v, s)),
        r.0 is Err ==> r.1@.1 is None,
{
    let script = element_state_script(selector);
    let result = match adapter.evaluate(script.as_str()) {
        Ok(v) => v,
        Err(e) => { return (Err(e), Ghost((script@, None))) },
    };
    let state = decode_element_state(&result);
    (Ok(state), Ghost((script@, Some(result))))
}

/// Verify a click operation by comparing pre- and post-click states.
///
/// Every reachable comparison yields a verified result; a
/// navigation-transient error while capturing the post state is itself
/// the expected outcome of a navigation click and verifies too.  Only
/// an unclassified error propagates.
pub fn verify_click<A: EngineAdapter>(
    adapter: &A,
    selector: &str,
    pre_click_state: &PreClickState,
) -> (r: Result<ClickVerificationResult, EngineError>)
    ensures
        r matches Ok(v) ==> {
            &&& v.verified
            &&& (v.navigation_error ==> v.reason@ == "navigation detected (expected for navigation clicks)"@)
            &&& (!v.navigation_error ==> is_click_compare_reason(v.reason@))
        },
{
    let post_click_state = match capture_pre_click_state(adapter, selector).0 {
        Ok(state) => state,
        Err(e) => {
            if e.is_navigation_transient() {
                return Ok(
                    ClickVerificationResult {
                        verified: true,
                        reason: "navigation detected (expected for navigation clicks)".to_owned(),
                        navigation_error: true,
                    },
                );
            } else {
                return Err(e);
            }
        },
    };
    Ok(compare_click_states(pre_click_state, &post_click_state))
}

/// Click an element (low-level operation).
///
/// Captures the pre-click state when verifying, performs the click
/// exactly once, and compares states afterwards.  A
/// navigation-transient error from the click itself is reported as the
/// navigation outcome; every completed click verifies.
pub fn click_element<A: EngineAdapter>(adapter: &A, selector: &str, options: &ClickOptions) -> (r:
    Result<ClickResult, EngineError>)
    ensures
        r matches Ok(cr) ==> {
            &&& cr.verified
            &&& (!cr.clicked ==> cr.navigated && cr.reason@ == "navigation during click"@)
            &&& (cr.clicked && !options.verify ==> !cr.navigated && cr.reason@
                == "click completed"@)
            &&& (cr.clicked && options.verify && cr.navigated ==> cr.reason@
                == "navigation detected (expected for navigation clicks)"@)
            &&& (cr.clicked && options.verify && !cr.navigated ==> is_click_compare_reason(
                cr.reason@,
            ))
        },
{
    let pre_click_state: PreClickState = if options.verify {
        match capture_pre_click_state(adapter, selector).0 {
            Ok(s) => s,
            Err(e) => { return Err(e) },
        }
    } else {
        PreClickState::default()
    };
    match adapter.click(selector) {
        Ok(_) => {},
        Err(e) => {
            if e.is_navigation_transient() {
                return Ok(ClickResult::navigation("navigation during click"));
            } else {
                return Err(e);
            }
        },
    }
    if options.verify {
        let verification = match verify_click(adapter, selector, &pre_click_state) {
            Ok(v) => v,
            Err(e) => { return Err(e) },
        };
        Ok(
            ClickResult {
                clicked: true,
                verified: verification.verified,
                navigated: verification.navigation_error,
                reason: verification.reason,
            },
        )
    } else {
        Ok(ClickResult::success("click completed"))
    }
}

/// Click a button or element (high-level, with scrolling and waits).
///
/// Scrolls the element into view when asked, clicks it exactly once,
/// verifies, and sleeps the settle wait after a real click.  Every
/// successful return is a verified outcome; an unclicked outcome names
/// the navigation that pre-empted it.
pub fn click_button<A: EngineAdapter, C: Clock>(
    adapter: &A,
    clock: &C,
    selector: &str,
    options: &ClickOptions,
) -> (r: Result<ClickResult, EngineError>)
    ensures
        r matches Ok(cr) ==> {
            &&& cr.verified
            &&& (!cr.clicked ==> cr.navigated && (cr.reason@ == "navigation during scroll"@
                || cr.reason@ == "navigation during click"@))
            &&& (cr.clicked && !options.verify ==> !cr.navigated && cr.reason@
                == "click completed"@)
            &&& (cr.clicked && options.verify && !cr.navigated ==> is_click_compare_reason(
                cr.reason@,
            ))
        },
{
    if options.scroll_into_view {
        let mut scroll_options = ScrollOptions::default();
        scroll_options.behavior = options.scroll_behavior;
        scroll_options.wait_after_scroll = options.wait_after_scroll;
        match scroll_into_view_if_needed(adapter, clock, selector, &scroll_options).0 {
            Ok(_) => {},
            Err(e) => {
                if e.is_navigation_transient() {
                    return Ok(ClickResult::navigation("navigation during scroll"));
                } else {
                    return Err(e);
                }
            },
        }
    }
    let result = match click_element(adapter, selector, options) {
        Ok(cr) => cr,
        Err(e) => { return Err(e) },
    };
    if result.clicked {
        clock.sleep_ms(options.wait_after_click);
    }
    Ok(result)
}

} // verus!
