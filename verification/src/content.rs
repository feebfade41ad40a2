//! Element content utilities: reading text and input values through
//! the engine capability, and pure preview formatting.

use vstd::prelude::*;
use crate::engine::{EngineAdapter, EngineError};
use crate::strutil::{str_is_blank, string_from_chars, trim_chars, trim_spec};

verus! {

/// Get the text content of an element.
pub fn text_content<A: EngineAdapter>(adapter: &A, selector: &str) -> Result<
    Option<String>,
    EngineError,
> {
    adapter.text_content(selector)
}

/// Get the value of an input element.
pub fn input_value<A: EngineAdapter>(adapter: &A, selector: &str) -> Result<
    Option<String>,
    EngineError,
> {
    adapter.input_value(selector)
}

/// Get an attribute value from an element.
pub fn get_attribute<A: EngineAdapter>(adapter: &A, selector: &str, attribute: &str) -> Result<
    Option<String>,
    EngineError,
> {
    adapter.get_attribute(selector, attribute)
}

/// An absent value, or one that trims to nothing, counts as empty.
pub open spec fn value_is_blank(v: Option<String>) -> bool {
    match v {
        None => true,
        Some(s) => trim_spec(s@).len() == 0,
    }
}

/// Whether a sampled input value is empty or whitespace-only.
pub fn sampled_value_is_blank(v: &Option<String>) -> (r: bool)
    ensures
        r == value_is_blank(*v),
{
    match v {
        None => true,
        Some(s) => str_is_blank(s.as_str()),
    }
}

/// Check if an input element is empty: it has no value, or a value
/// that is only whitespace.
pub fn is_element_empty<A: EngineAdapter>(adapter: &A, selector: &str) -> (r: Result<
    bool,
    EngineError,
>) {
    let value = match adapter.input_value(selector) {
        Ok(v) => v,
        Err(e) => { return Err(e) },
    };
    Ok(sampled_value_is_blank(&value))
}

/// What truncation yields: the trimmed string when it fits, else its
/// first `max_len` characters with an ellipsis.
pub open spec fn truncate_spec(s: Seq<char>, max_len: int) -> Seq<char> {
    let t = trim_spec(s);
    if t.len() <= max_len {
        t
    } else {
        t.subrange(0, max_len) + "..."@
    }
}

/// Truncate a string for preview purposes: trim it, and cap it at
/// `max_len` characters with a trailing "...".
pub fn truncate_for_preview(s: &str, max_len: usize) -> (r: String)
    ensures
        r@ == truncate_spec(s@, max_len as int),
{
    let mut t = trim_chars(s);
    if t.len() <= max_len {
        return string_from_chars(&t);
    }
    t.truncate(max_len);
    t.push('.');
    t.push('.');
    t.push('.');
    proof {
        reveal_strlit("...");
        assert(t@ =~= trim_spec(s@).subrange(0, max_len as int) + "..."@);
    }
    string_from_chars(&t)
}

/// Information about an element for logging purposes.
#[derive(Debug, Clone)]
pub struct ElementLogInfo {
    /// The element's tag name.
    pub tag_name: String,
    /// The element's text content (truncated).
    pub text_preview: String,
    /// Key attributes for identification.
    pub attributes: Vec<(String, String)>,
}

/// How one attribute renders: nothing when its value is empty, else
/// ` name="value"`.
pub open spec fn attr_fragment(name: Seq<char>, value: Seq<char>) -> Seq<char> {
    if value.len() == 0 {
        Seq::empty()
    } else {
        " "@ + name + "=\""@ + value + "\""@
    }
}

pub open spec fn attrs_fragment(attrs: Seq<(String, String)>) -> Seq<char>
    decreases attrs.len(),
{
    if attrs.len() == 0 {
        Seq::empty()
    } else {
        attrs_fragment(attrs.drop_last()) + attr_fragment(attrs.last().0@, attrs.last().1@)
    }
}

/// The rendering of element log info: an HTML-like sketch of the
/// element with its non-empty attributes and text preview.
pub open spec fn element_log_spec(info: ElementLogInfo) -> Seq<char> {
    "<"@ + info.tag_name@ + attrs_fragment(info.attributes@) + ">"@ + info.text_preview@ + "</"@
        + info.tag_name@ + ">"@
}

impl ElementLogInfo {
    /// Render the element sketch, e.g. `<button id="x">Go</button>`.
    pub fn render(&self) -> (r: String)
        ensures
            r@ == element_log_spec(*self),
    {
        let mut out = "<".to_owned();
        out.append(self.tag_name.as_str());
        let n: usize = self.attributes.len();
        let mut i: usize = 0;
        while i < n
            invariant
                n == self.attributes@.len(),
                i <= n,
                out@ == "<"@ + self.tag_name@ + attrs_fragment(
                    self.attributes@.subrange(0, i as int),
                ),
            decreases n - i,
        {
            let name_empty = self.attributes[i].1.as_str().is_empty();
            if !name_empty {
                out.append(" ");
                out.append(self.attributes[i].0.as_str());
                out.append("=\"");
                out.append(self.attributes[i].1.as_str());
                out.append("\"");
            }
            proof {
                assert(self.attributes@.subrange(0, i + 1).drop_last() =~= self.attributes@
                    .subrange(0, i as int));
                assert(self.attributes@.subrange(0, i + 1).last() == self.attributes@[i as int]);
                assert(out@ =~= "<"@ + self.tag_name@ + attrs_fragment(
                    self.attributes@.subrange(0, i + 1),
                ));
            }
            i = i + 1;
        }
        assert(self.attributes@.subrange(0, n as int) =~= self.attributes@);
        out.append(">");
        out.append(self.text_preview.as_str());
        out.append("</");
        out.append(self.tag_name.as_str());
        out.append(">");
        out
    }
}

} // verus!
