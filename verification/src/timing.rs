//! Timing configuration and the fixed Chrome arguments.
//!
//! All durations are in milliseconds.  The configuration is built once
//! and passed into every component; there is no ambient global state.

use vstd::prelude::*;

verus! {

/// The fixed Chrome arguments shared by both engines, in order.
pub open spec fn chrome_args_spec() -> Seq<Seq<char>> {
    seq![
        "--disable-session-crashed-bubble"@,
        "--hide-crash-restore-bubble"@,
        "--disable-infobars"@,
        "--no-first-run"@,
        "--no-default-browser-check"@,
        "--disable-crash-restore"@,
    ]
}

/// Common Chrome arguments used across both browser engines.
///
/// These arguments configure Chrome/Chromium in a way that optimizes
/// for automation and reduces user interruptions.
pub fn chrome_args() -> (r: Vec<String>)
    ensures
        r.deep_view() == chrome_args_spec(),
        r@.len() == 6,
{
    let mut r: Vec<String> = Vec::new();
    r.push("--disable-session-crashed-bubble".to_owned());
    r.push("--hide-crash-restore-bubble".to_owned());
    r.push("--disable-infobars".to_owned());
    r.push("--no-first-run".to_owned());
    r.push("--no-default-browser-check".to_owned());
    r.push("--disable-crash-restore".to_owned());
    assert(r.deep_view() =~~= chrome_args_spec());
    r
}

/// Timing constants for browser operations, in milliseconds.
///
/// These durations control wait times, timeouts, and animation
/// settle periods throughout the library.
#[derive(Debug, Clone, Copy)]
pub struct Timing {
    /// Wait time for scroll animations to complete.
    pub scroll_animation_wait: u64,
    /// Default wait after scrolling to element.
    pub default_wait_after_scroll: u64,
    /// Timeout for quick visibility checks.
    pub visibility_check_timeout: u64,
    /// Default timeout for most operations.
    pub default_timeout: u64,
    /// Default timeout for navigation operations.
    pub navigation_timeout: u64,
    /// Default timeout for action verification.
    pub verification_timeout: u64,
    /// Interval between verification retries.
    pub verification_retry_interval: u64,
}

pub open spec fn timing_default_spec(t: Timing) -> bool {
    &&& t.scroll_animation_wait == 300
    &&& t.default_wait_after_scroll == 1000
    &&& t.visibility_check_timeout == 100
    &&& t.default_timeout == 5000
    &&& t.navigation_timeout == 30000
    &&& t.verification_timeout == 3000
    &&& t.verification_retry_interval == 100
}

impl Default for Timing {
    fn default() -> (r: Self)
        ensures
            timing_default_spec(r),
    {
        Timing {
            scroll_animation_wait: 300,
            default_wait_after_scroll: 1000,
            visibility_check_timeout: 100,
            default_timeout: 5000,
            navigation_timeout: 30000,
            verification_timeout: 3000,
            verification_retry_interval: 100,
        }
    }
}

} // verus!
