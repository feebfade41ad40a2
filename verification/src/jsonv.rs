//! Trusted boundary around `serde_json::Value`, the JSON payload type
//! that script evaluation returns.  The value itself is opaque to the
//! verifier; each accessor is a pure function of the value (a match on
//! the JSON enum), so its result carries a name, and the verified
//! decoders state their outcome over those names.  An object member is
//! itself an opaque JSON value, so the member name carries it opaquely.

use vstd::prelude::*;

verus! {

#[verifier::external_type_specification]
#[verifier::external_body]
pub struct ExValue(serde_json::Value);

/// Whether a JSON value is `Null`.
pub uninterp spec fn json_is_null_spec(v: serde_json::Value) -> bool;

/// The member of a JSON object under a key: present exactly when the
/// value is an object that has the key.
pub uninterp spec fn json_member_spec(v: serde_json::Value, key: Seq<char>) -> Option<
    serde_json::Value,
>;

/// The boolean a JSON `Bool` carries; `None` for every other value.
pub uninterp spec fn json_bool_spec(v: serde_json::Value) -> Option<bool>;

/// The text a JSON `String` carries; `None` for every other value.
pub uninterp spec fn json_string_spec(v: serde_json::Value) -> Option<Seq<char>>;

/// The unsigned integer a JSON `Number` carries, when it is one;
/// `None` otherwise.
pub uninterp spec fn json_u64_spec(v: serde_json::Value) -> Option<u64>;

/// Relies on `serde_json::Value::is_null`: true exactly for `Null`.
#[verifier::external_body]
pub fn json_is_null(v: &serde_json::Value) -> (r: bool)
    ensures
        r == json_is_null_spec(*v),
{
    v.is_null()
}

/// Relies on `serde_json::Value::get`: the member of an object under a
/// key, if the value is an object and has it.
#[verifier::external_body]
pub fn json_get<'a>(v: &'a serde_json::Value, key: &str) -> (r: Option<&'a serde_json::Value>)
    ensures
        match r {
            Some(m) => json_member_spec(*v, key@) == Some(*m),
            None => json_member_spec(*v, key@) is None,
        },
{
    v.get(key)
}

/// Relies on `serde_json::Value::as_bool`: the boolean carried by a
/// `Bool` value.
#[verifier::external_body]
pub fn json_as_bool(v: &serde_json::Value) -> (r: Option<bool>)
    ensures
        r == json_bool_spec(*v),
{
    v.as_bool()
}

/// Relies on `serde_json::Value::as_str`: the text carried by a
/// `String` value, copied out.
#[verifier::external_body]
pub fn json_as_string(v: &serde_json::Value) -> (r: Option<String>)
    ensures
        match r {
            Some(s) => json_string_spec(*v) == Some(s@),
            None => json_string_spec(*v) is None,
        },
{
    v.as_str().map(String::from)
}

/// Relies on `serde_json::Value::as_u64`: the integer carried by a
/// `Number` value, if it is an unsigned integer.
#[verifier::external_body]
pub fn json_as_u64(v: &serde_json::Value) -> (r: Option<u64>)
    ensures
        r == json_u64_spec(*v),
{
    v.as_u64()
}

} // verus!
