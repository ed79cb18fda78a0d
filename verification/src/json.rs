//! The JSON accessors the bridge relies on: reading a field out of an
//! engine response. The documents themselves stay opaque; what each
//! outside call returns is either named or passed through, and every
//! decision on the values read is made by verified callers.
use vstd::prelude::*;

verus! {

#[verifier::external_type_specification]
#[verifier::external_body]
pub struct ExJsonValue(serde_json::Value);

/// Whether a text parses as JSON. A text's parse outcome depends on the
/// text alone.
pub uninterp spec fn json_parses(s: Seq<char>) -> bool;

/// The unsigned `height` member of a text's JSON object, when the text
/// parses to an object holding one. A function of the text alone.
pub uninterp spec fn json_height_field(s: Seq<char>) -> Option<u64>;

/// Relies on serde_json::from_str::<Value>: the parsed document when the
/// text is well-formed JSON, nothing otherwise.
#[verifier::external_body]
pub(crate) fn parse_json(s: &str) -> (r: Option<serde_json::Value>)
    ensures
        r is Some <==> json_parses(s@),
{
    serde_json::from_str::<serde_json::Value>(s).ok()
}

/// Relies on serde_json::Value::get: the member under a key, when the
/// value is an object holding one.
#[verifier::external_body]
pub(crate) fn json_get<'a>(v: &'a serde_json::Value, key: &str) -> (r: Option<
    &'a serde_json::Value,
>) {
    v.get(key)
}

/// Relies on serde_json::Value::as_u64: the number held, when the value
/// is an unsigned integer.
#[verifier::external_body]
pub(crate) fn json_as_u64(v: &serde_json::Value) -> (r: Option<u64>) {
    v.as_u64()
}

/// Relies on serde_json::Value::as_str: the text held, when the value is
/// a string.
#[verifier::external_body]
pub(crate) fn json_as_str<'a>(v: &'a serde_json::Value) -> (r: Option<&'a str>) {
    v.as_str()
}

/// Relies on serde_json's from_str, Value::get and Value::as_u64: the
/// unsigned `height` member of the parsed object — the named composition
/// above, which depends on the text alone; nothing when the text is not
/// JSON or the field is absent or not an unsigned number.
#[verifier::external_body]
pub(crate) fn height_field(text: &str) -> (r: Option<u64>)
    ensures
        r == json_height_field(text@),
        !json_parses(text@) ==> r is None,
{
    serde_json::from_str::<serde_json::Value>(text).ok().and_then(|v| {
        v.get("height").and_then(|h| h.as_u64())
    })
}

} // verus!
