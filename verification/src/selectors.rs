//! CSS selector utilities: text-selector and nth-of-type parsing,
//! normalization, and selector-value escaping, each against an exact
//! grammar specification.
//!
//! A text selector has the shape `:text("...")` or `:text('...')`: the
//! fixed prefix, a quote character, at least one content character none
//! of which is a newline, a quote character, and a closing parenthesis
//! ending the string.

use vstd::prelude::*;
use crate::strutil::{
    chars_vec, contains_at, digit_val, digits_val, esc_selector, esc_selector_char, is_digit,
    lemma_map_concat_push, map_concat, spec_starts_with, str_eq, str_starts_with, string_from_chars,
    trim_chars, trim_spec,
};

verus! {

/// Represents a parsed selector.
#[derive(Debug, Clone)]
pub enum ParsedSelector {
    /// A standard CSS selector.
    Css(String),
    /// A text-based selector.
    Text { text: String, element: Option<String> },
    /// An XPath selector.
    XPath(String),
}

pub open spec fn parsed_selector_eq_spec(a: ParsedSelector, b: ParsedSelector) -> bool {
    match (a, b) {
        (ParsedSelector::Css(x), ParsedSelector::Css(y)) => x@ == y@,
        (
            ParsedSelector::Text { text: t1, element: e1 },
            ParsedSelector::Text { text: t2, element: e2 },
        ) => t1@ == t2@ && match (e1, e2) {
            (Some(x), Some(y)) => x@ == y@,
            (None, None) => true,
            _ => false,
        },
        (ParsedSelector::XPath(x), ParsedSelector::XPath(y)) => x@ == y@,
        _ => false,
    }
}

impl PartialEq for ParsedSelector {
    fn eq(&self, other: &Self) -> (r: bool) {
        match (self, other) {
            (ParsedSelector::Css(x), ParsedSelector::Css(y)) => str_eq(x.as_str(), y.as_str()),
            (
                ParsedSelector::Text { text: t1, element: e1 },
                ParsedSelector::Text { text: t2, element: e2 },
            ) => {
                let texts_match = str_eq(t1.as_str(), t2.as_str());
                let elements_match = match (e1, e2) {
                    (Some(x), Some(y)) => str_eq(x.as_str(), y.as_str()),
                    (None, None) => true,
                    _ => false,
                };
                texts_match && elements_match
            },
            (ParsedSelector::XPath(x), ParsedSelector::XPath(y)) => str_eq(x.as_str(), y.as_str()),
            _ => false,
        }
    }
}

impl vstd::std_specs::cmp::PartialEqSpecImpl for ParsedSelector {
    open spec fn obeys_eq_spec() -> bool {
        true
    }

    open spec fn eq_spec(&self, other: &Self) -> bool {
        parsed_selector_eq_spec(*self, *other)
    }
}

pub open spec fn is_quote(c: char) -> bool {
    c == '"' || c == '\''
}

/// The exact text-selector grammar: `:text(` then a quote, at least one
/// non-newline content character, a quote, and a final `)`.
pub open spec fn is_text_selector_spec(s: Seq<char>) -> bool {
    &&& s.len() >= 10
    &&& spec_starts_with(s, ":text("@)
    &&& is_quote(s[6])
    &&& is_quote(s[s.len() - 2])
    &&& s[s.len() - 1] == ')'
    &&& forall|i: int| 7 <= i < s.len() - 2 ==> s[i] != '\n'
}

/// The content between the quotes of a text selector.
pub open spec fn text_selector_content(s: Seq<char>) -> Seq<char> {
    s.subrange(7, s.len() - 2)
}

/// Check if a selector is a text-based selector of the form
/// `:text("text content")`.
pub fn is_text_selector(selector: &str) -> (r: bool)
    ensures
        r == is_text_selector_spec(selector@),
{
    let n: usize = selector.unicode_len();
    if n < 10 {
        return false;
    }
    if !str_starts_with(selector, ":text(") {
        return false;
    }
    proof {
        reveal_strlit(":text(");
    }
    let q1 = selector.get_char(6);
    if !(q1 == '"' || q1 == '\'') {
        return false;
    }
    let q2 = selector.get_char(n - 2);
    if !(q2 == '"' || q2 == '\'') {
        return false;
    }
    if selector.get_char(n - 1) != ')' {
        return false;
    }
    let mut i: usize = 7;
    while i < n - 2
        invariant
            n == selector@.len(),
            10 <= n,
            7 <= i <= n - 2,
            forall|k: int| 7 <= k < i ==> selector@[k] != '\n',
        decreases n - i,
    {
        if selector.get_char(i) == '\n' {
            return false;
        }
        i = i + 1;
    }
    true
}

/// Extract the text from a text selector such as `:text("Submit")`;
/// `None` for anything that is not a text selector.
pub fn extract_text_from_selector(selector: &str) -> (r: Option<String>)
    ensures
        (r is Some) == is_text_selector_spec(selector@),
        r matches Some(t) ==> t@ == text_selector_content(selector@),
{
    if !is_text_selector(selector) {
        return None;
    }
    let n: usize = selector.unicode_len();
    let mut content: Vec<char> = Vec::new();
    let mut i: usize = 7;
    while i < n - 2
        invariant
            n == selector@.len(),
            10 <= n,
            7 <= i <= n - 2,
            content@ == selector@.subrange(7, i as int),
        decreases n - i,
    {
        content.push(selector.get_char(i));
        i = i + 1;
        assert(content@ =~= selector@.subrange(7, i as int));
    }
    Some(string_from_chars(&content))
}

/// What normalization yields: a trimmed text selector becomes `Text`,
/// a trimmed selector starting with `//` or `(//` becomes `XPath`, and
/// anything else is a plain `Css` selector, trimmed.
pub open spec fn normalize_selector_spec(s: Seq<char>, r: ParsedSelector) -> bool {
    let t = trim_spec(s);
    if is_text_selector_spec(t) {
        r matches ParsedSelector::Text { text, element } && text@ == text_selector_content(t)
            && element is None
    } else if spec_starts_with(t, "//"@) || spec_starts_with(t, "(//"@) {
        r matches ParsedSelector::XPath(x) && x@ == t
    } else {
        r matches ParsedSelector::Css(c) && c@ == t
    }
}

/// Normalize a selector for consistent handling.
pub fn normalize_selector(selector: &str) -> (r: ParsedSelector)
    ensures
        normalize_selector_spec(selector@, r),
{
    let trimmed_chars = trim_chars(selector);
    let trimmed = string_from_chars(&trimmed_chars);
    match extract_text_from_selector(trimmed.as_str()) {
        Some(text) => ParsedSelector::Text { text, element: None },
        None => {
            if str_starts_with(trimmed.as_str(), "//") || str_starts_with(trimmed.as_str(), "(//") {
                ParsedSelector::XPath(trimmed)
            } else {
                ParsedSelector::Css(trimmed)
            }
        },
    }
}

/// Build an XPath selector to find elements by visible text: with an
/// element type, `//el[contains(text(), 'text')]`; without one, the
/// wildcard `//*[contains(text(), 'text')]`.
pub fn build_text_selector(text: &str, element_type: Option<&str>) -> (r: String)
    ensures
        match element_type {
            Some(el) => r@ == "//"@ + el@ + "[contains(text(), '"@ + text@ + "')]"@,
            None => r@ == "//*[contains(text(), '"@ + text@ + "')]"@,
        },
{
    match element_type {
        Some(el) => {
            let mut s = "//".to_owned();
            s.append(el);
            s.append("[contains(text(), '");
            s.append(text);
            s.append("')]");
            s
        },
        None => {
            let mut s = "//*[contains(text(), '".to_owned();
            s.append(text);
            s.append("')]");
            s
        },
    }
}

/// A complete `:nth-of-type(<digits>)` occurrence: the marker starts
/// at `i`, preceded by at least one non-newline character; a non-empty
/// digit run follows it, closed by a parenthesis at `j`.
pub open spec fn nth_occurrence_at(s: Seq<char>, i: int, j: int) -> bool {
    &&& 1 <= i
    &&& s[i - 1] != '\n'
    &&& contains_at(s, ":nth-of-type("@, i)
    &&& i + 13 < j < s.len()
    &&& (forall|p: int| i + 13 <= p < j ==> is_digit(s[p]))
    &&& s[j] == ')'
}

pub open spec fn nth_occ_at(s: Seq<char>, i: int) -> bool {
    exists|j: int| nth_occurrence_at(s, i, j)
}

/// The selector contains an nth-of-type modifier somewhere.
pub open spec fn has_nth_of_type_spec(s: Seq<char>) -> bool {
    exists|i: int| #[trigger] nth_occ_at(s, i)
}

/// The leftmost occurrence: none starts earlier.
pub open spec fn nth_first_occurrence(s: Seq<char>, i: int, j: int) -> bool {
    &&& nth_occurrence_at(s, i, j)
    &&& (forall|i2: int| 1 <= i2 < i ==> !(#[trigger] nth_occ_at(s, i2)))
}

/// The index of the last newline strictly before position `i`, or -1.
pub open spec fn last_nl_before(s: Seq<char>, i: int) -> int
    decreases i,
{
    if i <= 0 {
        -1
    } else if s[i - 1] == '\n' {
        i - 1
    } else {
        last_nl_before(s, i - 1)
    }
}

/// Where the captured base selector starts: just after the last
/// newline before the marker, because the base cannot span a newline.
pub open spec fn nth_base_start(s: Seq<char>, i: int) -> int {
    last_nl_before(s, i) + 1
}

proof fn lemma_last_nl_before(s: Seq<char>, i: int, k: int)
    requires
        0 <= k <= i,
        forall|p: int| k <= p < i ==> s[p] != '\n',
        k == 0 || s[k - 1] == '\n',
    ensures
        last_nl_before(s, i) == k - 1,
    decreases i - k,
{
    if i > k {
        lemma_last_nl_before(s, i - 1, k);
    }
}

/// Scan for the leftmost nth-of-type occurrence, returning the marker
/// index and the closing-parenthesis index.
fn find_nth_occurrence(v: &Vec<char>) -> (r: Option<(usize, usize)>)
    ensures
        r matches Some(p) ==> nth_first_occurrence(v@, p.0 as int, p.1 as int),
        r is None ==> !has_nth_of_type_spec(v@),
{
    proof {
        reveal_strlit(":nth-of-type(");
    }
    let n: usize = v.len();
    let mut i: usize = 1;
    while i < n
        invariant
            n == v@.len(),
            1 <= i,
            ":nth-of-type("@.len() == 13,
            forall|i2: int| 1 <= i2 < i ==> !(#[trigger] nth_occ_at(v@, i2)),
        decreases n - i,
    {
        let marker_fits = n >= 13 && i <= n - 13;
        if marker_fits && v[i - 1] != '\n' && crate::strutil::matches_at(v, ":nth-of-type(", i) {
            let mut p: usize = i + 13;
            while p < n && is_digit_exec(v[p])
                invariant
                    n == v@.len(),
                    i + 13 <= p <= n,
                    forall|q: int| i + 13 <= q < p ==> is_digit(v@[q]),
                decreases n - p,
            {
                p = p + 1;
            }
            if p > i + 13 && p < n && v[p] == ')' {
                return Some((i, p));
            }
            proof {
                assert forall|j: int| !nth_occurrence_at(v@, i as int, j) by {
                    if i + 13 < j < v@.len() && v@[j] == ')' && (forall|q: int|
                        i + 13 <= q < j ==> is_digit(v@[q])) {
                        if j < p {
                            assert(is_digit(v@[j]));
                        } else if j == p {
                        } else {
                            assert(is_digit(v@[p as int]));
                        }
                    }
                }
                assert(!nth_occ_at(v@, i as int));
            }
        } else {
            proof {
                assert forall|j: int| !nth_occurrence_at(v@, i as int, j) by {
                    if nth_occurrence_at(v@, i as int, j) {
                        assert(contains_at(v@, ":nth-of-type("@, i as int));
                        assert(i + 13 <= n);
                        assert(v@[i - 1] != '\n');
                    }
                }
                assert(!nth_occ_at(v@, i as int));
            }
        }
        i = i + 1;
    }
    proof {
        assert forall|i2: int| !(#[trigger] nth_occ_at(v@, i2)) by {
            if nth_occ_at(v@, i2) {
                let j = choose|j: int| nth_occurrence_at(v@, i2, j);
                if 1 <= i2 < i {
                    assert(!nth_occ_at(v@, i2));
                } else {
                    assert(i2 + 13 < j < v@.len());
                }
            }
        }
    }
    None
}

fn is_digit_exec(c: char) -> (r: bool)
    ensures
        r == is_digit(c),
{
    c == '0' || c == '1' || c == '2' || c == '3' || c == '4' || c == '5' || c == '6' || c == '7'
        || c == '8' || c == '9'
}

fn digit_value(c: char) -> (r: usize)
    requires
        is_digit(c),
    ensures
        r as int == digit_val(c),
{
    if c == '0' {
        0
    } else if c == '1' {
        1
    } else if c == '2' {
        2
    } else if c == '3' {
        3
    } else if c == '4' {
        4
    } else if c == '5' {
        5
    } else if c == '6' {
        6
    } else if c == '7' {
        7
    } else if c == '8' {
        8
    } else {
        9
    }
}

proof fn lemma_digits_val_nonneg(d: Seq<char>)
    requires
        forall|p: int| 0 <= p < d.len() ==> is_digit(d[p]),
    ensures
        digits_val(d) >= 0,
    decreases d.len(),
{
    if d.len() > 0 {
        assert forall|p: int| 0 <= p < d.drop_last().len() implies is_digit(d.drop_last()[p]) by {
            assert(d.drop_last()[p] == d[p]);
        }
        lemma_digits_val_nonneg(d.drop_last());
        assert(is_digit(d.last()));
    }
}

/// The value of a digit run only grows as the run extends.
proof fn lemma_digits_val_prefix(d: Seq<char>, m: int)
    requires
        0 <= m <= d.len(),
        forall|p: int| 0 <= p < d.len() ==> is_digit(d[p]),
    ensures
        digits_val(d) >= digits_val(d.subrange(0, m)),
    decreases d.len() - m,
{
    if m < d.len() {
        lemma_digits_val_prefix(d, m + 1);
        let a = d.subrange(0, m);
        let b = d.subrange(0, m + 1);
        assert(b.drop_last() =~= a);
        assert(b.last() == d[m]);
        assert forall|p: int| 0 <= p < a.len() implies is_digit(a[p]) by {
            assert(a[p] == d[p]);
        }
        lemma_digits_val_nonneg(a);
        assert(is_digit(d[m]));
        assert(digits_val(b) == digits_val(a) * 10 + digit_val(d[m]));
    } else {
        assert(d.subrange(0, m) =~= d);
    }
}

/// Check if a selector contains an `:nth-of-type()` modifier.
pub fn has_nth_of_type(selector: &str) -> (r: bool)
    ensures
        r == has_nth_of_type_spec(selector@),
{
    let v = chars_vec(selector);
    match find_nth_occurrence(&v) {
        Some(o) => {
            proof {
                assert(nth_occurrence_at(selector@, o.0 as int, o.1 as int));
                assert(nth_occ_at(selector@, o.0 as int));
            }
            true
        },
        None => false,
    }
}

/// Parse an nth-of-type selector such as `button:nth-of-type(2)` into
/// its base selector and index.
///
/// The leftmost occurrence wins; the base is everything from the last
/// newline (or the start) up to the marker; the index is the digit
/// run's value.  `None` when there is no occurrence, or when the index
/// of the first occurrence does not fit the machine's integer.
pub fn parse_nth_of_type(selector: &str) -> (r: Option<(String, usize)>)
    ensures
        r matches Some(pair) ==> exists|i: int, j: int| {
            &&& #[trigger] nth_first_occurrence(selector@, i, j)
            &&& pair.0@ == selector@.subrange(nth_base_start(selector@, i), i)
            &&& pair.1 as int == digits_val(selector@.subrange(i + 13, j))
        },
        r is None ==> !has_nth_of_type_spec(selector@) || exists|i: int, j: int| {
            &&& #[trigger] nth_first_occurrence(selector@, i, j)
            &&& digits_val(selector@.subrange(i + 13, j)) > usize::MAX
        },
{
    let v = chars_vec(selector);
    let occ = match find_nth_occurrence(&v) {
        Some(o) => o,
        None => { return None },
    };
    let i = occ.0;
    let j = occ.1;
    let mut k: usize = i;
    while k > 0 && v[k - 1] != '\n'
        invariant
            v@ == selector@,
            nth_first_occurrence(v@, i as int, occ.1 as int),
            k <= i,
            forall|p: int| k <= p < i ==> v@[p] != '\n',
        decreases k,
    {
        k = k - 1;
    }
    proof {
        lemma_last_nl_before(v@, i as int, k as int);
    }
    let mut base_chars: Vec<char> = Vec::new();
    let mut b: usize = k;
    while b < i
        invariant
            v@ == selector@,
            nth_first_occurrence(v@, i as int, occ.1 as int),
            k <= b <= i,
            base_chars@ == v@.subrange(k as int, b as int),
        decreases i - b,
    {
        base_chars.push(v[b]);
        b = b + 1;
        assert(base_chars@ =~= v@.subrange(k as int, b as int));
    }
    let base = string_from_chars(&base_chars);
    let ghost run = v@.subrange(i + 13, j as int);
    proof {
        assert forall|p: int| 0 <= p < run.len() implies is_digit(run[p]) by {
            assert(run[p] == v@[i + 13 + p]);
        }
    }
    let mut acc: usize = 0;
    let mut p: usize = i + 13;
    while p < j
        invariant
            v@ == selector@,
            nth_first_occurrence(v@, i as int, j as int),
            run == v@.subrange(i + 13, j as int),
            forall|q: int| 0 <= q < run.len() ==> is_digit(run[q]),
            i + 13 <= p <= j,
            j < v@.len(),
            acc as int == digits_val(run.subrange(0, p - (i + 13))),
        decreases j - p,
    {
        let d = digit_value(v[p]);
        let ghost m = p - (i + 13);
        let next = match acc.checked_mul(10) {
            Some(x) => match x.checked_add(d) {
                Some(y) => y,
                None => {
                    proof {
                        assert(run.subrange(0, m + 1).drop_last() =~= run.subrange(0, m));
                        assert(run.subrange(0, m + 1).last() == run[m]);
                        assert(digits_val(run.subrange(0, m + 1)) > usize::MAX);
                        lemma_digits_val_prefix(run, m + 1);
                    }
                    return None;
                },
            },
            None => {
                proof {
                    assert(run.subrange(0, m + 1).drop_last() =~= run.subrange(0, m));
                    assert(run.subrange(0, m + 1).last() == run[m]);
                    assert(digit_val(run[m]) >= 0);
                    assert(digits_val(run.subrange(0, m + 1)) > usize::MAX);
                    lemma_digits_val_prefix(run, m + 1);
                }
                return None;
            },
        };
        proof {
            assert(run.subrange(0, m + 1).drop_last() =~= run.subrange(0, m));
            assert(run.subrange(0, m + 1).last() == run[m]);
            assert(run[m] == v@[p as int]);
        }
        acc = next;
        p = p + 1;
    }
    proof {
        assert(run.subrange(0, j - (i + 13)) =~= run);
    }
    Some((base, acc))
}

/// Escape backslashes and both quote characters in a CSS selector
/// value.
pub fn escape_selector_value(value: &str) -> (r: String)
    ensures
        r@ == esc_selector(value@),
{
    let n: usize = value.unicode_len();
    let mut out: Vec<char> = Vec::new();
    let mut i: usize = 0;
    while i < n
        invariant
            n == value@.len(),
            i <= n,
            out@ == map_concat(value@.subrange(0, i as int), |c: char| esc_selector_char(c)),
        decreases n - i,
    {
        let c = value.get_char(i);
        if c == '\\' {
            out.push('\\');
            out.push('\\');
        } else if c == '"' {
            out.push('\\');
            out.push('"');
        } else if c == '\'' {
            out.push('\\');
            out.push('\'');
        } else {
            out.push(c);
        }
        proof {
            lemma_map_concat_push(
                value@.subrange(0, i as int),
                value@[i as int],
                |c: char| esc_selector_char(c),
            );
            assert(value@.subrange(0, i + 1) =~= value@.subrange(0, i as int).push(
                value@[i as int],
            ));
        }
        i = i + 1;
    }
    assert(value@.subrange(0, n as int) =~= value@);
    string_from_chars(&out)
}

} // verus!
