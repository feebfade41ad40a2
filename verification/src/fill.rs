//! Fill operations: idempotent form filling with value verification.
//!
//! Filling is idempotent against pre-populated fields: with the
//! empty-check on, an element that already holds a non-blank value is
//! never written to; the operation short-circuits with a skipped
//! result carrying the existing value.

use vstd::prelude::*;
use crate::click::{click_element, ClickOptions};
use crate::content::sampled_value_is_blank;
use crate::engine::{engine_error_is_nav, Clock, EngineAdapter, EngineError, FillVerificationResult};
use crate::scroll::{scroll_into_view_if_needed, ScrollOptions};
use crate::strutil::{spec_contains, str_contains, str_eq, trim_spec};

verus! {

/// Options for fill operations.  Durations are milliseconds.
#[derive(Debug, Clone)]
pub struct FillOptions {
    /// Whether to scroll the element into view before filling.
    pub scroll_into_view: bool,
    /// Whether to simulate typing (character by character).
    pub simulate_typing: bool,
    /// Only fill if the element is empty.
    pub check_empty: bool,
    /// Whether to verify the fill operation.
    pub verify: bool,
    /// Timeout for verification.
    pub verification_timeout: u64,
    /// Interval between verification retries.
    pub verification_retry_interval: u64,
    /// Timeout for the overall operation.
    pub timeout: u64,
}

pub open spec fn fill_options_default_spec(o: FillOptions) -> bool {
    &&& o.scroll_into_view
    &&& o.simulate_typing
    &&& o.check_empty
    &&& o.verify
    &&& o.verification_timeout == 3000
    &&& o.verification_retry_interval == 100
    &&& o.timeout == 5000
}

impl Default for FillOptions {
    fn default() -> (r: Self)
        ensures
            fill_options_default_spec(r),
    {
        FillOptions {
            scroll_into_view: true,
            simulate_typing: true,
            check_empty: true,
            verify: true,
            verification_timeout: 3000,
            verification_retry_interval: 100,
            timeout: 5000,
        }
    }
}

/// Result of a fill operation.
#[derive(Debug, Clone)]
pub struct FillResult {
    /// Whether the fill was performed.
    pub filled: bool,
    /// Whether the fill was verified as successful.
    pub verified: bool,
    /// Whether the fill was skipped (the element had content).
    pub skipped: bool,
    /// The actual value after filling.
    pub actual_value: Option<String>,
}

impl FillResult {
    /// Create a successful fill result.
    pub fn success(actual_value: String) -> (r: Self)
        ensures
            r.filled,
            r.verified,
            !r.skipped,
            r.actual_value matches Some(v) && v == actual_value,
    {
        FillResult { filled: true, verified: true, skipped: false, actual_value: Some(actual_value) }
    }

    /// Create a result indicating the fill was skipped.
    pub fn skipped(actual_value: String) -> (r: Self)
        ensures
            !r.filled,
            !r.verified,
            r.skipped,
            r.actual_value matches Some(v) && v == actual_value,
    {
        FillResult {
            filled: false,
            verified: false,
            skipped: true,
            actual_value: Some(actual_value),
        }
    }

    /// Create a failed fill result.
    pub fn failed() -> (r: Self)
        ensures
            !r.filled,
            !r.verified,
            !r.skipped,
            r.actual_value is None,
    {
        FillResult { filled: false, verified: false, skipped: false, actual_value: None }
    }
}

/// A sampled value satisfies the fill expectation: it equals the
/// expected text or contains it.
pub open spec fn fill_value_hits(actual: Seq<char>, expected: Seq<char>) -> bool {
    actual == expected || spec_contains(actual, expected)
}

/// Decide one fill-verification sample.
pub fn fill_value_matches(actual: &str, expected: &str) -> (r: bool)
    ensures
        r == fill_value_hits(actual@, expected@),
{
    str_eq(actual, expected) || str_contains(actual, expected)
}

/// Verify a fill operation by polling the element's value at
/// `options.verification_retry_interval` until it equals or contains
/// the expected text, or `options.verification_timeout` elapses.  A
/// navigation-transient error ends verification with a definitive
/// unverified result; an unclassified error propagates.
pub fn verify_fill<A: EngineAdapter, C: Clock>(
    adapter: &A,
    clock: &C,
    selector: &str,
    expected_text: &str,
    options: &FillOptions,
) -> (r: Result<FillVerificationResult, EngineError>)
    ensures
        r matches Ok(v) ==> {
            &&& v.attempts >= 1
            &&& (v.verified ==> fill_value_hits(v.actual_value@, expected_text@))
        },
        r matches Err(e) ==> !engine_error_is_nav(e),
{
    let start: u64 = clock.now_ms();
    let interval: u64 = if options.verification_retry_interval == 0 {
        1
    } else {
        options.verification_retry_interval
    };
    let budget: u64 = (options.verification_timeout / interval).saturating_add(2);
    let mut attempts: u32 = 0;
    let mut iters: u64 = 0;
    while iters < budget
        decreases budget - iters,
    {
        let now: u64 = clock.now_ms();
        let elapsed: u64 = if now >= start {
            now - start
        } else {
            0
        };
        if elapsed >= options.verification_timeout {
            break ;
        }
        attempts = attempts.saturating_add(1);
        let actual_value = match adapter.input_value(selector) {
            Ok(Some(value)) => value,
            Ok(None) => String::new(),
            Err(e) => {
                if e.is_navigation_transient() {
                    return Ok(
                        FillVerificationResult {
                            verified: false,
                            actual_value: String::new(),
                            attempts,
                        },
                    );
                } else {
                    return Err(e);
                }
            },
        };
        if fill_value_matches(actual_value.as_str(), expected_text) {
            return Ok(FillVerificationResult { verified: true, actual_value, attempts });
        }
        clock.sleep_ms(options.verification_retry_interval);
        iters = iters + 1;
    }
    if attempts == 0 {
        attempts = 1;
    }
    let actual_value = match adapter.input_value(selector) {
        Ok(Some(value)) => value,
        Ok(None) => String::new(),
        Err(e) => {
            if e.is_navigation_transient() {
                return Ok(
                    FillVerificationResult {
                        verified: false,
                        actual_value: String::new(),
                        attempts,
                    },
                );
            } else {
                return Err(e);
            }
        },
    };
    Ok(FillVerificationResult { verified: false, actual_value, attempts })
}

/// Fill an input element with text (low-level operation).
///
/// Writes the value exactly once, by simulated keystrokes or a direct
/// value set per the options, then verifies when asked.  A
/// navigation-transient error yields the definitive failed result.
pub fn perform_fill<A: EngineAdapter, C: Clock>(
    adapter: &A,
    clock: &C,
    selector: &str,
    text: &str,
    options: &FillOptions,
) -> (r: Result<FillResult, EngineError>)
    ensures
        r matches Ok(fr) ==> {
            &&& !fr.skipped
            &&& (!fr.filled ==> !fr.verified && fr.actual_value is None)
            &&& (fr.filled && !options.verify ==> fr.verified && fr.actual_value is None)
            &&& (fr.filled && options.verify ==> fr.actual_value is Some)
            &&& (fr.filled && options.verify && fr.verified ==> (fr.actual_value matches Some(av)
                && fill_value_hits(av@, text@)))
        },
        r matches Err(e) ==> !engine_error_is_nav(e),
{
    if options.simulate_typing {
        match adapter.type_text(selector, text) {
            Ok(_) => {},
            Err(e) => {
                if e.is_navigation_transient() {
                    return Ok(FillResult::failed());
                } else {
                    return Err(e);
                }
            },
        }
    } else {
        match adapter.fill(selector, text) {
            Ok(_) => {},
            Err(e) => {
                if e.is_navigation_transient() {
                    return Ok(FillResult::failed());
                } else {
                    return Err(e);
                }
            },
        }
    }
    if options.verify {
        let verification = match verify_fill(adapter, clock, selector, text, options) {
            Ok(v) => v,
            Err(e) => { return Err(e) },
        };
        Ok(
            FillResult {
                filled: true,
                verified: verification.verified,
                skipped: false,
                actual_value: Some(verification.actual_value),
            },
        )
    } else {
        Ok(FillResult { filled: true, verified: true, skipped: false, actual_value: None })
    }
}

/// Fill a text area with text (high-level, with checks and scrolling).
///
/// With the empty-check on, the element's current value is read once:
/// a non-blank value short-circuits with a skipped result carrying
/// that value, and nothing is written.  Otherwise the element is
/// scrolled into view, focused with a non-verifying click, filled, and
/// verified.  A navigation-transient error in those later steps yields
/// the definitive failed result.
pub fn fill_text_area<A: EngineAdapter, C: Clock>(
    adapter: &A,
    clock: &C,
    selector: &str,
    text: &str,
    options: &FillOptions,
) -> (r: Result<FillResult, EngineError>)
    ensures
        r matches Ok(fr) ==> {
            &&& (fr.skipped ==> options.check_empty && !fr.filled && !fr.verified && (
            fr.actual_value matches Some(v) && trim_spec(v@).len() > 0))
            &&& (fr.filled && options.verify && fr.verified ==> (fr.actual_value matches Some(av)
                && fill_value_hits(av@, text@)))
            &&& (fr.filled && !options.verify ==> fr.verified)
            &&& (!fr.filled && !fr.skipped ==> !fr.verified && fr.actual_value is None)
        },
{
    if options.check_empty {
        let value = match adapter.input_value(selector) {
            Ok(v) => v,
            Err(e) => { return Err(e) },
        };
        if !sampled_value_is_blank(&value) {
            let current_value = match value {
                Some(v) => v,
                None => String::new(),
            };
            return Ok(FillResult::skipped(current_value));
        }
    }
    if options.scroll_into_view {
        let scroll_options = ScrollOptions::default();
        match scroll_into_view_if_needed(adapter, clock, selector, &scroll_options).0 {
            Ok(_) => {},
            Err(e) => {
                if e.is_navigation_transient() {
                    return Ok(FillResult::failed());
                } else {
                    return Err(e);
                }
            },
        }
    }
    let mut click_options = ClickOptions::default();
    click_options.scroll_into_view = false;
    click_options.verify = false;
    match click_element(adapter, selector, &click_options) {
        Ok(_) => {},
        Err(e) => {
            if e.is_navigation_transient() {
                return Ok(FillResult::failed());
            } else {
                return Err(e);
            }
        },
    }
    perform_fill(adapter, clock, selector, text, options)
}

} // verus!
