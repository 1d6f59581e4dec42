//! Trusted boundary around the JSON codec.
//!
//! The library treats `serde_json::Value` as an opaque document: it is
//! carried through `Message` bodies and probed through the small wrappers
//! below, whose contracts Verus believes without reading serde_json.
//! Each wrapped call computes a function of its arguments alone, so each
//! result bears a name (`json_of`, `get_of`, ...) that the callers'
//! contracts are stated over.

use vstd::prelude::*;

verus! {

#[verifier::external_type_specification]
#[verifier::external_body]
pub struct ExValue(serde_json::Value);

/// The document a text denotes, exactly as `serde_json::from_str::<Value>`
/// reads it; `None` when the text is not well-formed JSON. The JSON
/// grammar is not restated here; the result depends on the text alone.
pub uninterp spec fn json_of(s: Seq<char>) -> Option<serde_json::Value>;

/// Whether a text is a well-formed JSON document.
pub open spec fn json_wf(s: Seq<char>) -> bool {
    json_of(s) is Some
}

/// Whether a document is a JSON object, as `Value::is_object` answers it.
pub uninterp spec fn is_object_of(v: serde_json::Value) -> bool;

/// The value under a key of a JSON object, as `Value::get` finds it:
/// `None` when the document is not an object or the key is absent.
pub uninterp spec fn get_of(v: serde_json::Value, key: Seq<char>) -> Option<serde_json::Value>;

/// Whether a value is JSON `null`, as `Value::is_null` answers it.
pub uninterp spec fn is_null_of(v: serde_json::Value) -> bool;

/// The text of a JSON string value, as `Value::as_str` reads it; `None`
/// for any other kind of value.
pub uninterp spec fn as_str_of(v: serde_json::Value) -> Option<Seq<char>>;

/// The number held by a JSON number that is a non-negative integer
/// fitting u64, as `Value::as_u64` reads it; `None` otherwise.
pub uninterp spec fn as_u64_of(v: serde_json::Value) -> Option<u64>;

/// The bytes a document serializes to, as `serde_json::to_vec` writes
/// them; `None` when the codec reports an error.
pub uninterp spec fn json_bytes_of(v: serde_json::Value) -> Option<Seq<u8>>;

/// Relies on serde_json::from_str::<Value>: parses a JSON document; the
/// result is a function of the text alone.
#[verifier::external_body]
pub(crate) fn json_parse(s: &str) -> (r: Option<serde_json::Value>)
    ensures
        r == json_of(s@),
{
    serde_json::from_str(s).ok()
}

/// Relies on serde_json::Value::is_object: true exactly when the document
/// is a JSON object.
#[verifier::external_body]
pub(crate) fn json_is_object(v: &serde_json::Value) -> (r: bool)
    ensures
        r == is_object_of(*v),
{
    v.is_object()
}

/// Relies on serde_json::Value::get: looks a key up in a JSON object;
/// `None` when the value is not an object or the key is absent.
#[verifier::external_body]
pub(crate) fn json_get<'a>(v: &'a serde_json::Value, key: &str) -> (r: Option<
    &'a serde_json::Value,
>)
    ensures
        r matches Some(x) ==> get_of(*v, key@) == Some(*x),
        r is None ==> get_of(*v, key@) is None,
{
    v.get(key)
}

/// Relies on serde_json::Value::is_null: true exactly when the value is
/// JSON `null`.
#[verifier::external_body]
pub(crate) fn json_is_null(v: &serde_json::Value) -> (r: bool)
    ensures
        r == is_null_of(*v),
{
    v.is_null()
}

/// Relies on serde_json::Value::as_str: the string content of a JSON
/// string value, `None` for any other kind of value.
#[verifier::external_body]
pub(crate) fn json_as_string(v: &serde_json::Value) -> (r: Option<String>)
    ensures
        r matches Some(t) ==> as_str_of(*v) == Some(t@),
        r is None ==> as_str_of(*v) is None,
{
    v.as_str().map(|s| s.to_string())
}

/// Relies on serde_json::Value::as_u64: the numeric content of a JSON
/// number that is a non-negative integer fitting u64, `None` otherwise.
#[verifier::external_body]
pub(crate) fn json_as_u64(v: &serde_json::Value) -> (r: Option<u64>)
    ensures
        r == as_u64_of(*v),
{
    v.as_u64()
}

/// Relies on serde_json::to_vec: serializes a JSON document to bytes;
/// `None` if the codec reports an error.
#[verifier::external_body]
pub(crate) fn json_to_vec(v: &serde_json::Value) -> (r: Option<Vec<u8>>)
    ensures
        r matches Some(b) ==> json_bytes_of(*v) == Some(b@),
        r is None ==> json_bytes_of(*v) is None,
{
    serde_json::to_vec(v).ok()
}

} // verus!
