//! Scroll operations: scroll-into-view with visibility verification,
//! and the idempotent scroll-if-needed entry point that callers layer
//! click and fill on.

use vstd::prelude::*;
use crate::engine::{Clock, EngineAdapter, EngineError, ScrollVerificationResult};

verus! {

/// Scroll behavior options.
#[derive(Debug, Clone, Copy, PartialEq, Eq, Structural)]
pub enum ScrollBehavior {
    /// Smooth animated scrolling.
    Smooth,
    /// Instant scrolling (no animation).
    Instant,
}

pub open spec fn scroll_behavior_name(b: ScrollBehavior) -> Seq<char> {
    match b {
        ScrollBehavior::Smooth => "smooth"@,
        ScrollBehavior::Instant => "instant"@,
    }
}

impl ScrollBehavior {
    /// The behavior's name as scripts spell it.
    pub fn to_string(&self) -> (r: String)
        ensures
            r@ == scroll_behavior_name(*self),
    {
        match self {
            ScrollBehavior::Smooth => "smooth".to_owned(),
            ScrollBehavior::Instant => "instant".to_owned(),
        }
    }
}

impl Default for ScrollBehavior {
    fn default() -> (r: Self)
        ensures
            r == ScrollBehavior::Smooth,
    {
        ScrollBehavior::Smooth
    }
}

/// Options for scroll operations.  Durations are milliseconds; the
/// threshold is a percentage of the viewport height.
#[derive(Debug, Clone)]
pub struct ScrollOptions {
    /// The scroll behavior (smooth or instant).
    pub behavior: ScrollBehavior,
    /// Whether to verify the scroll operation.
    pub verify: bool,
    /// Timeout for verification.
    pub verification_timeout: u64,
    /// Interval between verification retries.
    pub verification_retry_interval: u64,
    /// Threshold percentage for determining if scroll is needed.
    pub threshold_percent: u64,
    /// Wait time after scroll for the animation to complete.
    pub wait_after_scroll: u64,
}

pub open spec fn scroll_options_default_spec(o: ScrollOptions) -> bool {
    &&& o.behavior == ScrollBehavior::Smooth
    &&& o.verify
    &&& o.verification_timeout == 3000
    &&& o.verification_retry_interval == 100
    &&& o.threshold_percent == 10
    &&& o.wait_after_scroll == 300
}

impl Default for ScrollOptions {
    fn default() -> (r: Self)
        ensures
            scroll_options_default_spec(r),
    {
        ScrollOptions {
            behavior: ScrollBehavior::Smooth,
            verify: true,
            verification_timeout: 3000,
            verification_retry_interval: 100,
            threshold_percent: 10,
            wait_after_scroll: 300,
        }
    }
}

/// Result of a scroll operation.
#[derive(Debug, Clone)]
pub struct ScrollResult {
    /// Whether scroll was performed.
    pub scrolled: bool,
    /// Whether the scroll was verified as successful.
    pub verified: bool,
    /// Whether the scroll was skipped because the element was already
    /// in view.
    pub skipped: bool,
}

impl ScrollResult {
    /// Create a result indicating scroll was skipped.
    pub fn skipped() -> (r: Self)
        ensures
            !r.scrolled,
            r.verified,
            r.skipped,
    {
        ScrollResult { scrolled: false, verified: true, skipped: true }
    }

    /// Create a result indicating scroll was performed.
    pub fn performed(verified: bool) -> (r: Self)
        ensures
            r.scrolled,
            r.verified == verified,
            !r.skipped,
    {
        ScrollResult { scrolled: true, verified, skipped: false }
    }

    /// Create a result indicating scroll failed (e.g., navigation
    /// occurred).
    pub fn failed() -> (r: Self)
        ensures
            !r.scrolled,
            !r.verified,
            !r.skipped,
    {
        ScrollResult { scrolled: false, verified: false, skipped: false }
    }
}

/// Verify that a scroll operation was successful: poll the element's
/// visibility at `options.verification_retry_interval` until it is
/// visible or `options.verification_timeout` elapses.
pub fn verify_scroll<A: EngineAdapter, C: Clock>(
    adapter: &A,
    clock: &C,
    selector: &str,
    options: &ScrollOptions,
) -> (r: Result<ScrollVerificationResult, EngineError>)
    ensures
        r matches Ok(v) ==> v.attempts >= 1 && v.verified == v.in_viewport,
{
    let start: u64 = clock.now_ms();
    let interval: u64 = if options.verification_retry_interval == 0 {
        1
    } else {
        options.verification_retry_interval
    };
    let budget: u64 = (options.verification_timeout / interval).saturating_add(2);
    let mut attempts: u32 = 0;
    let mut iters: u64 = 0;
    while iters < budget
        decreases budget - iters,
    {
        let now: u64 = clock.now_ms();
        let elapsed: u64 = if now >= start {
            now - start
        } else {
            0
        };
        if elapsed >= options.verification_timeout {
            break ;
        }
        attempts = attempts.saturating_add(1);
        let visible = match adapter.is_visible(selector) {
            Ok(b) => b,
            Err(e) => { return Err(e) },
        };
        if visible {
            return Ok(ScrollVerificationResult { verified: true, in_viewport: true, attempts });
        }
        clock.sleep_ms(options.verification_retry_interval);
        iters = iters + 1;
    }
    if attempts == 0 {
        attempts = 1;
    }
    Ok(ScrollVerificationResult { verified: false, in_viewport: false, attempts })
}

/// Scroll an element into view, verifying visibility afterwards when
/// requested.
pub fn scroll_into_view<A: EngineAdapter, C: Clock>(
    adapter: &A,
    clock: &C,
    selector: &str,
    options: &ScrollOptions,
) -> (r: Result<ScrollResult, EngineError>)
    ensures
        r matches Ok(sr) ==> sr.scrolled && !sr.skipped && (!options.verify ==> sr.verified),
{
    match adapter.scroll_into_view(selector) {
        Ok(_) => {},
        Err(e) => { return Err(e) },
    }
    if options.verify {
        let verification = match verify_scroll(adapter, clock, selector, options) {
            Ok(v) => v,
            Err(e) => { return Err(e) },
        };
        Ok(ScrollResult::performed(verification.verified))
    } else {
        Ok(ScrollResult::performed(true))
    }
}

/// Scroll an element into view only if needed.
///
/// An already-visible element skips the underlying scroll call
/// entirely (idempotence) and reports `skipped` with `verified`.  After
/// a real smooth scroll the settle wait runs before returning, so that
/// callers layering click or fill on top do not read stale geometry.
///
/// Beside the result it returns the visibility sample it acted on, as
/// a ghost value: the scroll is skipped exactly when the element was
/// already visible.
pub fn scroll_into_view_if_needed<A: EngineAdapter, C: Clock>(
    adapter: &A,
    clock: &C,
    selector: &str,
    options: &ScrollOptions,
) -> (r: (Result<ScrollResult, EngineError>, Ghost<Option<bool>>))
    ensures
        r.0 matches Ok(sr) ==> {
            &&& (r.1@ matches Some(visible) && (sr.skipped <==> visible))
            &&& (sr.skipped ==> sr.verified && !sr.scrolled)
            &&& (!sr.skipped ==> sr.scrolled)
        },
{
    let visible = match adapter.is_visible(selector) {
        Ok(b) => b,
        Err(e) => { return (Err(e), Ghost(None)) },
    };
    if visible {
        return (Ok(ScrollResult::skipped()), Ghost(Some(true)));
    }
    let result = match scroll_into_view(adapter, clock, selector, options) {
        Ok(sr) => sr,
        Err(e) => { return (Err(e), Ghost(Some(false))) },
    };
    if result.scrolled && matches!(options.behavior, ScrollBehavior::Smooth) {
        clock.sleep_ms(options.wait_after_scroll);
    }
    (Ok(result), Ghost(Some(false)))
}

} // verus!
