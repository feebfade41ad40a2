//! URL utilities: parsing into a plain component record, origin
//! comparison, and scheme predicates.
//!
//! Parsing itself is the `url` crate's work; the library holds the
//! parsed URL as plain values (scheme, host, path, query, and the
//! origin's ASCII serialization) and the logic on them is verified.

use vstd::prelude::*;
use crate::engine::{EngineAdapter, EngineError};
use crate::strutil::{opt_string_view, spec_starts_with, str_eq, str_starts_with};

verus! {

/// The components a parse yields, at the specification level.
pub ghost struct UrlPartsV {
    /// The URL's scheme.
    pub scheme: Seq<char>,
    /// The host, for URLs that have one.
    pub host: Option<Seq<char>>,
    /// The ASCII serialization of a tuple origin; `None` for URLs
    /// whose origin is opaque and so equal to no other.
    pub origin: Option<Seq<char>>,
    /// The URL's path.
    pub path: Seq<char>,
    /// The query string, without the `?`.
    pub query: Option<Seq<char>>,
}

/// What the WHATWG URL parser makes of a string: its components when
/// the string parses, `None` when it does not.
pub uninterp spec fn url_parts_of(s: Seq<char>) -> Option<UrlPartsV>;

/// A parsed and normalized URL, held as plain component values.
#[derive(Debug, Clone)]
pub struct UrlParts {
    /// The URL's scheme.
    pub scheme: String,
    /// The host, for URLs that have one.
    pub host: Option<String>,
    /// The ASCII serialization of a tuple origin; `None` when the
    /// origin is opaque.
    pub origin: Option<String>,
    /// The URL's path.
    pub path: String,
    /// The query string, without the `?`.
    pub query: Option<String>,
}

impl View for UrlParts {
    type V = UrlPartsV;

    open spec fn view(&self) -> UrlPartsV {
        UrlPartsV {
            scheme: self.scheme@,
            host: opt_string_view(self.host),
            origin: opt_string_view(self.origin),
            path: self.path@,
            query: opt_string_view(self.query),
        }
    }
}

impl UrlParts {
    /// The URL's scheme.
    pub fn scheme(&self) -> (r: &str)
        ensures
            r@ == self@.scheme,
    {
        self.scheme.as_str()
    }

    /// The host, when the URL has one.
    pub fn host_str(&self) -> (r: Option<&str>)
        ensures
            match r {
                Some(h) => self@.host == Some(h@),
                None => self@.host is None,
            },
    {
        match &self.host {
            Some(h) => Some(h.as_str()),
            None => None,
        }
    }

    /// The URL's path.
    pub fn path(&self) -> (r: &str)
        ensures
            r@ == self@.path,
    {
        self.path.as_str()
    }

    /// The query string, when the URL has one.
    pub fn query(&self) -> (r: Option<&str>)
        ensures
            match r {
                Some(q) => self@.query == Some(q@),
                None => self@.query is None,
            },
    {
        match &self.query {
            Some(q) => Some(q.as_str()),
            None => None,
        }
    }
}

/// The error a failed URL parse reports.
#[derive(Debug, Clone, PartialEq, Eq, Structural)]
pub struct UrlParseError;

/// Relies on `url::Url::parse` and its component accessors `scheme`,
/// `host_str`, `path`, `query` and `origin`: parses the string per the
/// WHATWG URL standard and copies the components out as plain values;
/// an opaque origin (equal to no other) is recorded as `None`.
#[verifier::external_body]
fn parse_url_raw(s: &str) -> (r: Option<UrlParts>)
    ensures
        match r {
            Some(p) => url_parts_of(s@) == Some(p@),
            None => url_parts_of(s@) is None,
        },
{
    let u = match url::Url::parse(s) {
        Ok(u) => u,
        Err(_) => return None,
    };
    let origin = match u.origin() {
        o @ url::Origin::Tuple(..) => Some(o.ascii_serialization()),
        url::Origin::Opaque(_) => None,
    };
    Some(UrlParts {
        scheme: u.scheme().to_string(),
        host: u.host_str().map(|h| h.to_string()),
        origin,
        path: u.path().to_string(),
        query: u.query().map(|q| q.to_string()),
    })
}

/// Parse and normalize a URL into its components.
pub fn parse_url(url_str: &str) -> (r: Result<UrlParts, UrlParseError>)
    ensures
        match r {
            Ok(p) => url_parts_of(url_str@) == Some(p@),
            Err(_) => url_parts_of(url_str@) is None,
        },
{
    match parse_url_raw(url_str) {
        Some(p) => Ok(p),
        None => Err(UrlParseError),
    }
}

/// Two URL strings name the same origin: both parse, neither origin is
/// opaque, and the origins agree.
pub open spec fn same_origin_spec(a: Seq<char>, b: Seq<char>) -> bool {
    match (url_parts_of(a), url_parts_of(b)) {
        (Some(x), Some(y)) => match (x.origin, y.origin) {
            (Some(ox), Some(oy)) => ox == oy,
            _ => false,
        },
        _ => false,
    }
}

/// Check if two URLs are the same origin.  URLs with opaque origins
/// (such as data: URLs) are the same origin with nothing.
pub fn same_origin(url1: &str, url2: &str) -> (r: bool)
    ensures
        r == same_origin_spec(url1@, url2@),
{
    let p1 = match parse_url_raw(url1) {
        Some(p) => p,
        None => { return false },
    };
    let p2 = match parse_url_raw(url2) {
        Some(p) => p,
        None => { return false },
    };
    match (&p1.origin, &p2.origin) {
        (Some(o1), Some(o2)) => str_eq(o1.as_str(), o2.as_str()),
        _ => false,
    }
}

/// The host of a URL string, when it parses and has one.
pub open spec fn domain_of_spec(s: Seq<char>) -> Option<Seq<char>> {
    match url_parts_of(s) {
        Some(p) => p.host,
        None => None,
    }
}

/// Extract the domain (host) from a URL.
pub fn get_domain(url_str: &str) -> (r: Option<String>)
    ensures
        match r {
            Some(h) => domain_of_spec(url_str@) == Some(h@),
            None => domain_of_spec(url_str@) is None,
        },
{
    match parse_url_raw(url_str) {
        Some(p) => p.host,
        None => None,
    }
}

/// Check if a URL is a data URL.
pub fn is_data_url(url_str: &str) -> (r: bool)
    ensures
        r == spec_starts_with(url_str@, "data:"@),
{
    str_starts_with(url_str, "data:")
}

/// Check if a URL is a blob URL.
pub fn is_blob_url(url_str: &str) -> (r: bool)
    ensures
        r == spec_starts_with(url_str@, "blob:"@),
{
    str_starts_with(url_str, "blob:")
}

/// Check if a URL is an about: URL.
pub fn is_about_url(url_str: &str) -> (r: bool)
    ensures
        r == spec_starts_with(url_str@, "about:"@),
{
    str_starts_with(url_str, "about:")
}

/// Get the current URL from the page.
pub fn get_url<A: EngineAdapter>(adapter: &A) -> Result<String, EngineError> {
    adapter.url()
}

/// Unfocus the address bar (useful after browser launch).
///
/// Brings the page to front, which removes focus from the address bar;
/// failures are ignored, as this is only a usability improvement.
pub fn unfocus_address_bar<A: EngineAdapter>(adapter: &A) -> (r: Result<(), EngineError>)
    ensures
        r is Ok,
{
    match adapter.bring_to_front() {
        Ok(_) => Ok(()),
        Err(_) => Ok(()),
    }
}

} // verus!
