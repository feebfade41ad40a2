//! Navigation operations: the navigation verifier and the orchestrated
//! goto operation, with URL stabilization support.
//!
//! The verifier samples the current URL until it matches what the
//! caller expects or the verification timeout elapses; the goto
//! operation composes stabilize, navigate, stabilize and verify, and
//! absorbs navigation-transient errors into its structured result.

use vstd::prelude::*;
use crate::engine::{engine_error_is_nav, Clock, EngineAdapter, EngineError};
use crate::stabilize::wait_for_url_stabilization;
use crate::strutil::{spec_contains, spec_starts_with, str_contains, str_eq, str_starts_with};
use vstd::string::StringExecFns;

verus! {

/// The fixed short interval at which the navigation verifier polls;
/// distinct from, and shorter than, the caller's configured retry
/// interval.
pub const NAV_VERIFY_POLL_MS: u64 = 100;

/// Wait until conditions for page load.
#[derive(Debug, Clone, Copy, PartialEq, Eq, Structural)]
pub enum WaitUntil {
    /// Wait for DOMContentLoaded event.
    DomContentLoaded,
    /// Wait for load event.
    Load,
    /// Wait for network to be idle.
    NetworkIdle,
}

pub open spec fn wait_until_name(w: WaitUntil) -> Seq<char> {
    match w {
        WaitUntil::DomContentLoaded => "domcontentloaded"@,
        WaitUntil::Load => "load"@,
        WaitUntil::NetworkIdle => "networkidle"@,
    }
}

impl WaitUntil {
    /// The condition's name as the protocols spell it.
    pub fn to_string(&self) -> (r: String)
        ensures
            r@ == wait_until_name(*self),
    {
        match self {
            WaitUntil::DomContentLoaded => "domcontentloaded".to_owned(),
            WaitUntil::Load => "load".to_owned(),
            WaitUntil::NetworkIdle => "networkidle".to_owned(),
        }
    }
}

impl Default for WaitUntil {
    fn default() -> (r: Self)
        ensures
            r == WaitUntil::DomContentLoaded,
    {
        WaitUntil::DomContentLoaded
    }
}

/// Options for navigation operations.  Durations are milliseconds.
#[derive(Debug, Clone)]
pub struct NavigationOptions {
    /// Wait until condition for navigation.
    pub wait_until: WaitUntil,
    /// Navigation timeout.
    pub timeout: u64,
    /// Whether to wait for the URL to stabilize before navigation.
    pub wait_for_stable_url_before: bool,
    /// Whether to wait for the URL to stabilize after navigation.
    pub wait_for_stable_url_after: bool,
    /// Whether to verify the navigation.
    pub verify: bool,
    /// Verification timeout.
    pub verification_timeout: u64,
    /// Number of consecutive stable checks required.
    pub stable_checks: u32,
    /// Interval between stability checks.
    pub check_interval: u64,
}

pub open spec fn navigation_options_default_spec(o: NavigationOptions) -> bool {
    &&& o.wait_until == WaitUntil::DomContentLoaded
    &&& o.timeout == 30000
    &&& o.wait_for_stable_url_before
    &&& o.wait_for_stable_url_after
    &&& o.verify
    &&& o.verification_timeout == 3000
    &&& o.stable_checks == 3
    &&& o.check_interval == 1000
}

impl Default for NavigationOptions {
    fn default() -> (r: Self)
        ensures
            navigation_options_default_spec(r),
    {
        NavigationOptions {
            wait_until: WaitUntil::DomContentLoaded,
            timeout: 30000,
            wait_for_stable_url_before: true,
            wait_for_stable_url_after: true,
            verify: true,
            verification_timeout: 3000,
            stable_checks: 3,
            check_interval: 1000,
        }
    }
}

/// Result of a navigation verification.
#[derive(Debug, Clone)]
pub struct NavigationVerificationResult {
    /// Whether the navigation was verified as successful.
    pub verified: bool,
    /// The actual URL after navigation.
    pub actual_url: String,
    /// The reason for the verification result.
    pub reason: String,
    /// Number of verification attempts.
    pub attempts: u32,
}

/// Result of a navigation operation.
#[derive(Debug, Clone)]
pub struct NavigationResult {
    /// Whether navigation was performed.
    pub navigated: bool,
    /// Whether the navigation was verified as successful.
    pub verified: bool,
    /// The actual URL after navigation.
    pub actual_url: Option<String>,
    /// The reason for the result.
    pub reason: Option<String>,
}

impl NavigationResult {
    /// Create a successful navigation result.
    pub fn success(actual_url: String) -> (r: Self)
        ensures
            r.navigated,
            r.verified,
            r.actual_url matches Some(u) && u == actual_url,
            r.reason matches Some(s) && s@ == "navigation completed"@,
    {
        NavigationResult {
            navigated: true,
            verified: true,
            actual_url: Some(actual_url),
            reason: Some("navigation completed".to_owned()),
        }
    }

    /// Create a result indicating navigation was interrupted.
    pub fn interrupted(reason: &str) -> (r: Self)
        ensures
            !r.navigated,
            !r.verified,
            r.actual_url is None,
            r.reason matches Some(s) && s@ == reason@,
    {
        NavigationResult {
            navigated: false,
            verified: false,
            actual_url: None,
            reason: Some(reason.to_owned()),
        }
    }
}

/// One URL sample satisfies the caller's expectation.
pub open spec fn url_sample_hits(expected: Option<Seq<char>>, start: Seq<char>, actual: Seq<char>) -> bool {
    match expected {
        Some(e) => actual == e || spec_contains(actual, e) || spec_starts_with(actual, e),
        None => actual != start,
    }
}

/// The reason the verifier reports for a hit: exact equality beats the
/// pattern match; without an expected URL any change from the start
/// URL counts.
pub open spec fn url_hit_reason(expected: Option<Seq<char>>, actual: Seq<char>) -> Seq<char> {
    match expected {
        Some(e) => if actual == e {
            "exact URL match"@
        } else {
            "URL pattern match"@
        },
        None => "URL changed from start"@,
    }
}

pub open spec fn opt_str_view(o: Option<&str>) -> Option<Seq<char>> {
    match o {
        Some(s) => Some(s@),
        None => None,
    }
}

/// Decide one verification sample: whether the sampled URL satisfies
/// the expectation, and with which reason.
///
/// With an expected URL, exact string equality verifies with reason
/// "exact URL match"; the expected URL occurring inside, or at the
/// start of, the actual one verifies with reason "URL pattern match".
/// Without one, any change from the start URL verifies with reason
/// "URL changed from start".
pub fn check_url_sample(expected: Option<&str>, start_url: &str, actual: &str) -> (r: Option<
    String,
>)
    ensures
        (r is Some) == url_sample_hits(opt_str_view(expected), start_url@, actual@),
        r matches Some(s) ==> s@ == url_hit_reason(opt_str_view(expected), actual@),
{
    match expected {
        Some(e) => {
            if str_eq(actual, e) {
                Some("exact URL match".to_owned())
            } else if str_contains(actual, e) || str_starts_with(actual, e) {
                Some("URL pattern match".to_owned())
            } else {
                None
            }
        },
        None => {
            if !str_eq(actual, start_url) {
                Some("URL changed from start".to_owned())
            } else {
                None
            }
        },
    }
}

/// A verifier outcome is sound: when it reports success, the reported
/// URL really satisfies the expectation, under the reason it names.
pub open spec fn nav_verification_sound(
    expected: Option<Seq<char>>,
    start: Seq<char>,
    v: NavigationVerificationResult,
) -> bool {
    v.verified ==> {
        &&& url_sample_hits(expected, start, v.actual_url@)
        &&& v.reason@ == url_hit_reason(expected, v.actual_url@)
    }
}

/// Verify that navigation completed successfully.
///
/// Polls the current URL at a fixed short interval until it satisfies
/// the expectation or `options.verification_timeout` elapses.  A
/// navigation-transient sampling error ends verification immediately
/// with `verified == false` and reason "error during verification"; an
/// unclassified error propagates.  On timeout one final sample is
/// reported with a reason embedding the expected and actual values.
pub fn verify_navigation<A: EngineAdapter, C: Clock>(
    adapter: &A,
    clock: &C,
    expected_url: Option<&str>,
    start_url: &str,
    options: &NavigationOptions,
) -> (r: Result<NavigationVerificationResult, EngineError>)
    ensures
        r matches Ok(v) ==> {
            &&& v.attempts >= 1
            &&& nav_verification_sound(opt_str_view(expected_url), start_url@, v)
            &&& (!v.verified ==> v.reason@ == "error during verification"@ || spec_starts_with(
                v.reason@,
                "URL mismatch: expected "@,
            ))
        },
        r matches Err(e) ==> !engine_error_is_nav(e),
{
    let start: u64 = clock.now_ms();
    let budget: u64 = (options.verification_timeout / NAV_VERIFY_POLL_MS).saturating_add(2);
    let mut attempts: u32 = 0;
    let mut iters: u64 = 0;
    while iters < budget
        invariant
            attempts >= iters || attempts == u32::MAX,
            iters >= 1 ==> attempts >= 1,
        decreases budget - iters,
    {
        let now: u64 = clock.now_ms();
        let elapsed: u64 = if now >= start {
            now - start
        } else {
            0
        };
        if elapsed >= options.verification_timeout {
            break ;
        }
        attempts = attempts.saturating_add(1);
        let actual_url = match adapter.url() {
            Ok(u) => u,
            Err(e) => {
                if e.is_navigation_transient() {
                    return Ok(
                        NavigationVerificationResult {
                            verified: false,
                            actual_url: String::new(),
                            reason: "error during verification".to_owned(),
                            attempts,
                        },
                    );
                } else {
                    return Err(e);
                }
            },
        };
        match check_url_sample(expected_url, start_url, actual_url.as_str()) {
            Some(reason) => {
                return Ok(
                    NavigationVerificationResult {
                        verified: true,
                        actual_url,
                        reason,
                        attempts,
                    },
                );
            },
            None => {},
        }
        clock.sleep_ms(NAV_VERIFY_POLL_MS);
        iters = iters + 1;
    }
    if attempts == 0 {
        attempts = 1;
    }
    let actual_url = match adapter.url() {
        Ok(u) => u,
        Err(e) => {
            if e.is_navigation_transient() {
                return Ok(
                    NavigationVerificationResult {
                        verified: false,
                        actual_url: String::new(),
                        reason: "error during verification".to_owned(),
                        attempts,
                    },
                );
            } else {
                return Err(e);
            }
        },
    };
    let mut reason = "URL mismatch: expected ".to_owned();
    match expected_url {
        Some(e) => {
            reason.append("Some(\"");
            reason.append(e);
            reason.append("\")");
        },
        None => {
            reason.append("None");
        },
    }
    reason.append(", got \"");
    reason.append(actual_url.as_str());
    reason.append("\"");
    proof {
        assert(spec_starts_with(reason@, "URL mismatch: expected "@));
    }
    Ok(NavigationVerificationResult { verified: false, actual_url, reason, attempts })
}

/// Navigate to a URL.
///
/// Captures the start URL, optionally stabilizes before and after the
/// navigate call, and optionally verifies the outcome.  A
/// navigation-transient error anywhere yields a structured interrupted
/// result; only an unclassified adapter error propagates.
pub fn goto<A: EngineAdapter, C: Clock>(
    adapter: &A,
    clock: &C,
    url: &str,
    options: &NavigationOptions,
) -> (r: Result<NavigationResult, EngineError>)
    ensures
        r matches Ok(nr) ==> {
            &&& (!nr.navigated ==> !nr.verified && nr.actual_url is None && (nr.reason matches
                Some(s) && s@ == "navigation was interrupted"@))
            &&& (nr.navigated && !options.verify ==> nr.verified && nr.actual_url is Some && (
            nr.reason matches Some(s) && s@ == "navigation completed"@))
            &&& (nr.navigated && options.verify && nr.verified ==> (nr.actual_url matches Some(a)
                && url_sample_hits(Some(url@), ""@, a@) && (nr.reason matches Some(s) && s@
                == url_hit_reason(Some(url@), a@))))
            &&& (nr.navigated && options.verify && !nr.verified ==> (nr.actual_url is Some && (
            nr.reason matches Some(s) && (s@ == "error during verification"@ || spec_starts_with(
                s@,
                "URL mismatch: expected "@,
            )))))
        },
        r matches Err(e) ==> !engine_error_is_nav(e),
{
    let start_url = match adapter.url() {
        Ok(u) => u,
        Err(e) => {
            if e.is_navigation_transient() {
                return Ok(NavigationResult::interrupted("navigation was interrupted"));
            } else {
                return Err(e);
            }
        },
    };
    if options.wait_for_stable_url_before {
        match wait_for_url_stabilization(adapter, clock, options, "before navigation").0 {
            Ok(_) => {},
            Err(e) => {
                if e.is_navigation_transient() {
                    return Ok(NavigationResult::interrupted("navigation was interrupted"));
                } else {
                    return Err(e);
                }
            },
        }
    }
    match adapter.goto(url) {
        Ok(_) => {},
        Err(e) => {
            if e.is_navigation_transient() {
                return Ok(NavigationResult::interrupted("navigation was interrupted"));
            } else {
                return Err(e);
            }
        },
    }
    if options.wait_for_stable_url_after {
        match wait_for_url_stabilization(adapter, clock, options, "after navigation").0 {
            Ok(_) => {},
            Err(e) => {
                if e.is_navigation_transient() {
                    return Ok(NavigationResult::interrupted("navigation was interrupted"));
                } else {
                    return Err(e);
                }
            },
        }
    }
    if options.verify {
        let verification = match verify_navigation(
            adapter,
            clock,
            Some(url),
            start_url.as_str(),
            options,
        ) {
            Ok(v) => v,
            Err(e) => { return Err(e) },
        };
        return Ok(
            NavigationResult {
                navigated: true,
                verified: verification.verified,
                actual_url: Some(verification.actual_url),
                reason: Some(verification.reason),
            },
        );
    }
    let actual_url = match adapter.url() {
        Ok(u) => u,
        Err(e) => {
            if e.is_navigation_transient() {
                return Ok(NavigationResult::interrupted("navigation was interrupted"));
            } else {
                return Err(e);
            }
        },
    };
    Ok(NavigationResult::success(actual_url))
}

/// Wait for the engine's own navigation-complete signal.
///
/// Returns `Ok(true)` when the engine reported completion, `Ok(false)`
/// when the wait failed with a navigation-transient error; an
/// unclassified error propagates.
pub fn wait_for_navigation<A: EngineAdapter>(adapter: &A, timeout_ms: u64) -> (r: Result<
    bool,
    EngineError,
>)
    ensures
        r matches Err(e) ==> !engine_error_is_nav(e),
{
    match adapter.wait_for_navigation(timeout_ms) {
        Ok(_) => Ok(true),
        Err(e) => {
            if e.is_navigation_transient() {
                Ok(false)
            } else {
                Err(e)
            }
        },
    }
}

} // verus!
