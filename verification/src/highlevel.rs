//! High-level engine-independent operations: URL-condition polling,
//! click-listener installation, session-storage flags, and the
//! multi-strategy toggle-button finder.

use vstd::prelude::*;
use crate::engine::{engine_error_is_nav, Clock, EngineAdapter, EngineError};
use crate::jsonv::json_as_u64;
use crate::selectors::build_text_selector;
use crate::strutil::{esc_squote, escape_squotes, str_starts_with, string_from_chars};
use vstd::string::StringExecFns;

verus! {

/// Wait for a URL condition to be met.
///
/// Polls at `polling_interval` milliseconds until the current URL
/// starts with the target (or the custom check accepts it), up to
/// `max_checks` polls.  A navigation-transient sampling error is
/// absorbed and polling continues.
pub fn wait_for_url_condition<A: EngineAdapter, C: Clock, F: Fn(&str) -> bool>(
    adapter: &A,
    clock: &C,
    target_url: &str,
    _description: Option<&str>,
    polling_interval: u64,
    max_checks: u64,
    custom_check: Option<F>,
) -> (r: Result<bool, EngineError>)
    requires
        custom_check matches Some(f) ==> forall|s: &str| f.requires((s,)),
    ensures
        custom_check is None ==> (r matches Err(e) ==> !engine_error_is_nav(e)),
{
    let mut checks: u64 = 0;
    while checks < max_checks
        invariant
            custom_check matches Some(f) ==> forall|s: &str| f.requires((s,)),
        decreases max_checks - checks,
    {
        match &custom_check {
            Some(check) => {
                let current_url = match adapter.url() {
                    Ok(u) => u,
                    Err(e) => { return Err(e) },
                };
                if check(current_url.as_str()) {
                    return Ok(true);
                }
            },
            None => {},
        }
        let sampled = match adapter.url() {
            Ok(u) => Some(u),
            Err(e) => {
                if e.is_navigation_transient() {
                    None
                } else {
                    return Err(e);
                }
            },
        };
        match sampled {
            Some(current_url) => {
                if str_starts_with(current_url.as_str(), target_url) {
                    return Ok(true);
                }
            },
            None => {},
        }
        clock.sleep_ms(polling_interval);
        checks = checks + 1;
    }
    Ok(false)
}

/// Install a click-detection listener on the page.
///
/// Installs a script-side event listener that sets a session-storage
/// flag when an element carrying the given button text is clicked.
/// Returns `Ok(false)` when installation failed with a
/// navigation-transient error; an unclassified error propagates.
pub fn install_click_listener<A: EngineAdapter>(
    adapter: &A,
    button_text: &str,
    storage_key: &str,
) -> (r: Result<bool, EngineError>)
    ensures
        r matches Err(e) ==> !engine_error_is_nav(e),
{
    let text = string_from_chars(&escape_squotes(button_text));
    let key = string_from_chars(&escape_squotes(storage_key));
    let mut script = "(function() { document.addEventListener('click', (event) => { let element = event.target; while (element && element !== document.body) { const elementText = element.textContent?.trim() || ''; if (elementText === '".to_owned();
    script.append(text.as_str());
    script.append("' || ((element.tagName === 'A' || element.tagName === 'BUTTON') && elementText.includes('");
    script.append(text.as_str());
    script.append("'))) { console.log('[Click Listener] Detected click on ");
    script.append(text.as_str());
    script.append(" button!'); window.sessionStorage.setItem('");
    script.append(key.as_str());
    script.append("', 'true'); break; } element = element.parentElement; } }, true); })()");
    match adapter.evaluate(script.as_str()) {
        Ok(_) => Ok(true),
        Err(e) => {
            if e.is_navigation_transient() {
                Ok(false)
            } else {
                Err(e)
            }
        },
    }
}

/// Check and clear a session-storage flag.
///
/// Returns `Ok(true)` when the flag was set (and has been cleared);
/// `Ok(false)` otherwise, or when a navigation-transient error occurs.
pub fn check_and_clear_flag<A: EngineAdapter>(adapter: &A, storage_key: &str) -> (r: Result<
    bool,
    EngineError,
>)
    ensures
        r matches Err(e) ==> !engine_error_is_nav(e),
{
    let key = string_from_chars(&escape_squotes(storage_key));
    let mut script = "(function() { const flag = window.sessionStorage.getItem('".to_owned();
    script.append(key.as_str());
    script.append("'); if (flag === 'true') { window.sessionStorage.removeItem('");
    script.append(key.as_str());
    script.append("'); return true; } return false; })()");
    match adapter.evaluate(script.as_str()) {
        Ok(value) => {
            let flag = match crate::jsonv::json_as_bool(&value) {
                Some(b) => b,
                None => false,
            };
            Ok(flag)
        },
        Err(e) => {
            if e.is_navigation_transient() {
                Ok(false)
            } else {
                Err(e)
            }
        },
    }
}

/// What the text-search fallback of the toggle-button finder builds
/// for one element type.
pub open spec fn toggle_xpath_spec(element_type: Seq<char>, text: Seq<char>) -> Seq<char> {
    "//"@ + element_type + "[contains(text(), '"@ + esc_squote(text) + "')]"@
}

/// Find a toggle button using multiple strategies.
///
/// Tries the data-qa selectors in order first; any that matches at
/// least one element wins.  Otherwise falls back to a text search: for
/// each element type, an XPath selector is built from the (escaped)
/// text and evaluated, and the first with matches wins.  The returned
/// selector is always one of the given data-qa selectors or one of the
/// built XPath selectors.
pub fn find_toggle_button<A: EngineAdapter>(
    adapter: &A,
    data_qa_selectors: &Vec<String>,
    text_to_find: Option<&str>,
    element_types: &Vec<String>,
) -> (r: Result<Option<String>, EngineError>)
    ensures
        r matches Ok(sel_opt) ==> (sel_opt matches Some(sel) ==> (exists|i: int|
            0 <= i < data_qa_selectors@.len() && sel@ == #[trigger] data_qa_selectors@[i]@) || (
        text_to_find matches Some(t) && exists|i: int|
            0 <= i < element_types@.len() && sel@ == toggle_xpath_spec(
                #[trigger] element_types@[i]@,
                t@,
            ))),
{
    let n: usize = data_qa_selectors.len();
    let mut i: usize = 0;
    while i < n
        invariant
            n == data_qa_selectors@.len(),
            i <= n,
        decreases n - i,
    {
        let matching = match adapter.count(data_qa_selectors[i].as_str()) {
            Ok(c) => c,
            Err(e) => { return Err(e) },
        };
        if matching > 0 {
            let sel = data_qa_selectors[i].clone();
            proof {
                assert(sel@ == data_qa_selectors@[i as int]@);
            }
            return Ok(Some(sel));
        }
        i = i + 1;
    }
    if text_to_find.is_some() {
        let text = text_to_find.unwrap();
        {
            let escaped = string_from_chars(&escape_squotes(text));
            let m: usize = element_types.len();
            let mut k: usize = 0;
            while k < m
                invariant
                    m == element_types@.len(),
                    k <= m,
                    escaped@ == esc_squote(text@),
                    text_to_find == Some(text),
                decreases m - k,
            {
                let xpath = build_text_selector(
                    escaped.as_str(),
                    Some(element_types[k].as_str()),
                );
                let xpath_escaped = string_from_chars(&escape_squotes(xpath.as_str()));
                let mut script =
                    "(function() { const result = document.evaluate('".to_owned();
                script.append(xpath_escaped.as_str());
                script.append(
                    "', document, null, XPathResult.ORDERED_NODE_SNAPSHOT_TYPE, null); return result.snapshotLength; })()",
                );
                match adapter.evaluate(script.as_str()) {
                    Ok(value) => {
                        let found = match json_as_u64(&value) {
                            Some(c) => c > 0,
                            None => false,
                        };
                        if found {
                            proof {
                                assert(xpath@ == toggle_xpath_spec(
                                    element_types@[k as int]@,
                                    text@,
                                ));
                                assert(exists|i: int|
                                    0 <= i < element_types@.len() && xpath@ == toggle_xpath_spec(
                                        #[trigger] element_types@[i]@,
                                        text@,
                                    ));
                            }
                            return Ok(Some(xpath));
                        }
                    },
                    Err(_) => {},
                }
                k = k + 1;
            }
            Ok(None)
        }
    } else {
        Ok(None)
    }
}

} // verus!
