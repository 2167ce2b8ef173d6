//! The parts of `serde_json` that the assistant reads: parsing a text into a
//! JSON value and reading the string members of an object.
use vstd::prelude::*;

verus! {

/// A JSON value of `serde_json`, carried through without looking inside.
#[verifier::external_type_specification]
#[verifier::external_body]
pub struct ExJsonValue(serde_json::Value);

/// The error `serde_json` reports for a text that is not JSON.
#[verifier::external_type_specification]
#[verifier::external_body]
pub struct ExJsonError(serde_json::Error);

/// The members of a JSON value that are strings, by key: empty unless the
/// value is an object.
pub uninterp spec fn string_members(value: serde_json::Value) -> Map<Seq<char>, Seq<char>>;

/// The `Display` text of a `serde_json` error.
pub uninterp spec fn json_error_text(error: serde_json::Error) -> Seq<char>;

/// What `serde_json::from_str::<serde_json::Value>` makes of a text: the
/// string members of the value it reads, or the text of the error it reports
/// when it refuses the text.
pub uninterp spec fn parsed_json(text: Seq<char>) -> Result<Map<Seq<char>, Seq<char>>, Seq<char>>;

/// Trusted: `serde_json::from_str::<serde_json::Value>`. Claims that it
/// succeeds exactly on the texts that `parsed_json` names accepted, that the
/// value it gives has the string members named there, and that the error it
/// gives otherwise has the text named there.
#[verifier::external_body]
pub(crate) fn parse_json(text: &str) -> (r: Result<serde_json::Value, serde_json::Error>)
    ensures
        r is Ok <==> parsed_json(text@) is Ok,
        r matches Ok(v) ==> parsed_json(text@)->Ok_0 == string_members(v),
        r matches Err(e) ==> parsed_json(text@)->Err_0 == json_error_text(e),
{
    serde_json::from_str::<serde_json::Value>(text)
}

/// Trusted: `serde_json::Value::get` with a string key, keeping the member
/// only when it is a JSON string. Claims that a string comes back exactly
/// when the value has a string member under `key`, and that it is that member.
#[verifier::external_body]
pub(crate) fn string_member(value: &serde_json::Value, key: &str) -> (r: Option<String>)
    ensures
        r is Some <==> string_members(*value).contains_key(key@),
        r matches Some(s) ==> s@ == string_members(*value)[key@],
{
    match value.get(key) {
        Some(serde_json::Value::String(s)) => Some(s.clone()),
        _ => None,
    }
}

/// Trusted: the `Display` text of a `serde_json::Error`, named by
/// `json_error_text`; the wording itself is `serde_json`'s own.
#[verifier::external_body]
pub(crate) fn describe_json_error(error: &serde_json::Error) -> (r: String)
    ensures
        r@ == json_error_text(*error),
{
    error.to_string()
}

/// The member under `key` of a JSON value: that member of an object, and
/// `null` when the value is not an object or has no such member.
pub uninterp spec fn member_of(value: serde_json::Value, key: Seq<char>) -> serde_json::Value;

/// The element at `index` of a JSON value: that element of an array, and
/// `null` when the value is not an array or is too short.
pub uninterp spec fn element_of(value: serde_json::Value, index: nat) -> serde_json::Value;

/// The elements of a JSON value that is an array; `None` for any other value.
pub uninterp spec fn array_of(value: serde_json::Value) -> Option<Seq<serde_json::Value>>;

/// Trusted: indexing a `serde_json::Value` with a string key
/// (`Index<&str> for Value`), which gives `null` where there is no such
/// member and never panics. Claims that the result is the member named by
/// `member_of`.
#[verifier::external_body]
pub(crate) fn json_member<'a>(value: &'a serde_json::Value, key: &str) -> (r: &'a serde_json::Value)
    ensures
        *r == member_of(*value, key@),
{
    &value[key]
}

/// Trusted: indexing a `serde_json::Value` with a position
/// (`Index<usize> for Value`), which gives `null` where there is no such
/// element and never panics. Claims that the result is the element named by
/// `element_of`.
#[verifier::external_body]
pub(crate) fn json_element<'a>(value: &'a serde_json::Value, index: usize) -> (r: &'a serde_json::Value)
    ensures
        *r == element_of(*value, index as nat),
{
    &value[index]
}

/// Trusted: `serde_json::Value::as_array`, with the elements cloned. Claims
/// that elements come back exactly when `array_of` names an array, and that
/// they are its elements.
#[verifier::external_body]
pub(crate) fn json_array(value: &serde_json::Value) -> (r: Option<Vec<serde_json::Value>>)
    ensures
        r is Some <==> array_of(*value) is Some,
        r matches Some(a) ==> a@ == array_of(*value)->Some_0,
{
    value.as_array().cloned()
}

} // verus!
