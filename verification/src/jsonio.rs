//! The trusted boundary around serde_json. Each wrapper holds exactly one
//! call into the crate, and each call's result — a function of its
//! arguments alone — carries a name, so that the parsing functions built on
//! these wrappers can state their results exactly. A JSON value stays
//! opaque here; every decision taken on what these return is made by
//! verified code in the parsing functions.
use vstd::prelude::*;

verus! {

#[verifier::external_type_specification]
#[verifier::external_body]
pub struct ExValue(serde_json::Value);

/// The document a text parses to, if it is JSON.
pub uninterp spec fn json_of(s: Seq<char>) -> Option<serde_json::Value>;

/// The value under a key, if the value is an object with that key.
pub uninterp spec fn member_of(v: serde_json::Value, key: Seq<char>) -> Option<serde_json::Value>;

/// The elements of a JSON array, if the value is one.
pub uninterp spec fn array_of(v: serde_json::Value) -> Option<Seq<serde_json::Value>>;

/// The text of a JSON string, if the value is one.
pub uninterp spec fn string_of(v: serde_json::Value) -> Option<Seq<char>>;

/// The number a JSON value holds, if it holds one, as its decimal text.
pub uninterp spec fn number_text_of(v: serde_json::Value) -> Option<Seq<char>>;

/// Relies on serde_json::from_str: parses a JSON document from text, or
/// reports that the text is not one. The result depends on the text alone.
#[verifier::external_body]
pub(crate) fn json_parse(s: &str) -> (r: Option<serde_json::Value>)
    ensures
        r == json_of(s@),
{
    serde_json::from_str(s).ok()
}

/// Relies on serde_json::Value::get: the value under a key of a JSON
/// object, if the value is an object with that key.
#[verifier::external_body]
pub(crate) fn json_member<'a>(v: &'a serde_json::Value, key: &str) -> (r: Option<
    &'a serde_json::Value,
>)
    ensures
        r matches Some(x) ==> member_of(*v, key@) == Some(*x),
        r is None ==> member_of(*v, key@) is None,
{
    v.get(key)
}

/// Relies on serde_json::Value::as_array: the elements of a JSON array, if
/// the value is one.
#[verifier::external_body]
pub(crate) fn json_array(v: &serde_json::Value) -> (r: Option<&Vec<serde_json::Value>>)
    ensures
        r matches Some(a) ==> array_of(*v) == Some(a@),
        r is None ==> array_of(*v) is None,
{
    v.as_array()
}

/// Relies on serde_json::Value::as_str: the text of a JSON string, if the
/// value is one.
#[verifier::external_body]
pub(crate) fn json_string(v: &serde_json::Value) -> (r: Option<String>)
    ensures
        r matches Some(s) ==> string_of(*v) == Some(s@),
        r is None ==> string_of(*v) is None,
{
    match v.as_str() {
        Some(s) => Some(s.to_owned()),
        None => None,
    }
}

/// Relies on serde_json::Value::as_f64: the number a JSON value holds, if
/// it holds one, rendered back to its decimal text. The rendering depends
/// on the number alone.
#[verifier::external_body]
pub(crate) fn json_number_text(v: &serde_json::Value) -> (r: Option<String>)
    ensures
        r matches Some(t) ==> number_text_of(*v) == Some(t@),
        r is None ==> number_text_of(*v) is None,
{
    match v.as_f64() {
        Some(n) => Some(n.to_string()),
        None => None,
    }
}

/// The body the transport handed back, as text.
pub open spec fn body_view(body: Option<&str>) -> Option<Seq<char>> {
    match body {
        Some(b) => Some(b@),
        None => None,
    }
}

/// The value one key further down a chain that may already have broken off.
pub open spec fn child_of(v: Option<serde_json::Value>, key: Seq<char>) -> Option<
    serde_json::Value,
> {
    match v {
        Some(x) => member_of(x, key),
        None => None,
    }
}

/// The text at the end of a chain that may have broken off.
pub open spec fn text_at(v: Option<serde_json::Value>) -> Option<Seq<char>> {
    match v {
        Some(x) => string_of(x),
        None => None,
    }
}

/// The number's text at the end of a chain that may have broken off.
pub open spec fn number_text_at(v: Option<serde_json::Value>) -> Option<Seq<char>> {
    match v {
        Some(x) => number_text_of(x),
        None => None,
    }
}

} // verus!
