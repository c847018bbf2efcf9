//! Trusted bridge to `serde_json`: the remote service and the persisted
//! cache speak JSON, and every read of a JSON document goes through the
//! declarations and wrappers below. What a field read yields is a
//! function of the document text alone, so each read is named and the
//! logic that interprets it is verified in its caller.

use vstd::prelude::*;

verus! {

#[verifier::external_type_specification]
#[verifier::external_body]
pub struct ExJsonValue(serde_json::Value);

/// Whether a text parses as a JSON document; what `serde_json::from_str`
/// accepts depends on the text alone.
pub uninterp spec fn json_ok(s: Seq<char>) -> bool;

/// The named field's integer value in a document text: `Some` exactly
/// when the text is a JSON object whose field `key` holds an unsigned
/// 64-bit integer.
pub uninterp spec fn json_u64_field(s: Seq<char>, key: Seq<char>) -> Option<u64>;

/// The named field's text in a document text: `Some` exactly when the
/// text is a JSON object whose field `key` holds a string.
pub uninterp spec fn json_str_field(s: Seq<char>, key: Seq<char>) -> Option<Seq<char>>;

/// The named field rendered back as compact JSON: `Some` exactly when
/// the text is a JSON object that has the field at all.
pub uninterp spec fn json_rendered_field(s: Seq<char>, key: Seq<char>) -> Option<Seq<char>>;

/// Relies on `serde_json::from_str::<Value>`: parsing succeeds on exactly
/// the well-formed JSON texts.
#[verifier::external_body]
pub(crate) fn parse_json(s: &str) -> (r: Option<serde_json::Value>)
    ensures
        r is Some <==> json_ok(s@),
{
    serde_json::from_str::<serde_json::Value>(s).ok()
}

/// Relies on `serde_json::from_str`, `Value::get` and `Value::as_u64`:
/// the named field's integer value, a function of the text and key.
#[verifier::external_body]
pub(crate) fn text_field_u64(s: &str, key: &str) -> (r: Option<u64>)
    ensures
        r == json_u64_field(s@, key@),
        !json_ok(s@) ==> r is None,
{
    serde_json::from_str::<serde_json::Value>(s).ok()?.get(key)?.as_u64()
}

/// Relies on `serde_json::from_str`, `Value::get` and `Value::as_str`:
/// the named field's text, a function of the text and key.
#[verifier::external_body]
pub(crate) fn text_field_string(s: &str, key: &str) -> (r: Option<String>)
    ensures
        r matches Some(t) ==> json_str_field(s@, key@) == Some(t@),
        r is None ==> json_str_field(s@, key@) is None,
        !json_ok(s@) ==> r is None,
{
    let doc = serde_json::from_str::<serde_json::Value>(s).ok()?;
    Some(doc.get(key)?.as_str()?.to_owned())
}

/// Relies on `serde_json::from_str`, `Value::get` and
/// `serde_json::to_string`: the named field rendered back as compact
/// JSON (the field value's `Display` text), a function of the text and
/// key.
#[verifier::external_body]
pub(crate) fn text_field_rendered(s: &str, key: &str) -> (r: Option<String>)
    ensures
        r matches Some(t) ==> json_rendered_field(s@, key@) == Some(t@),
        r is None ==> json_rendered_field(s@, key@) is None,
        !json_ok(s@) ==> r is None,
{
    let doc = serde_json::from_str::<serde_json::Value>(s).ok()?;
    let field = doc.get(key)?;
    serde_json::to_string(field).ok()
}

} // verus!
