//! The JSON reader that audit lines pass through. Parsing is serde_json's work;
//! this module only names what it yields, so that the contracts built on top
//! can say which record a line stands for.
//!
//! `parse`, `member` and `string_of` are not proved: each states what the
//! serde_json function in its body is documented to do, and the proofs of
//! this crate rest on that.

use vstd::prelude::*;

verus! {

/// A parsed JSON document, as serde_json holds it. Its inside is not visible
/// to proofs; it is observed through `json_member` and `json_string` only.
#[verifier::external_type_specification]
#[verifier::external_body]
pub struct ExValue(serde_json::Value);

/// The document that `serde_json::from_str` reads from `text`, or `None` where
/// it reports an error.
pub uninterp spec fn json_parsed(text: Seq<char>) -> Option<serde_json::Value>;

/// The member stored under `key` in `value`, as `serde_json::Value::get` finds
/// it with a string index: `None` unless `value` is an object that has the key.
pub uninterp spec fn json_member(value: serde_json::Value, key: Seq<char>) -> Option<
    serde_json::Value,
>;

/// The text of `value`, as `serde_json::Value::as_str` gives it: `None` unless
/// `value` is a JSON string.
pub uninterp spec fn json_string(value: serde_json::Value) -> Option<Seq<char>>;

/// Calls `serde_json::from_str` for a `serde_json::Value`. The parser's error
/// is not kept: a line that does not parse is dropped by every caller. Claimed:
/// the outcome is a function of the text alone.
#[verifier::external_body]
pub(crate) fn parse(text: &str) -> (r: Option<serde_json::Value>)
    ensures
        r == json_parsed(text@),
{
    serde_json::from_str::<serde_json::Value>(text).ok()
}

/// Calls `serde_json::Value::get` with a string index. Claimed: the outcome is
/// a function of the document and the key.
#[verifier::external_body]
pub(crate) fn member<'a>(value: &'a serde_json::Value, key: &str) -> (r: Option<
    &'a serde_json::Value,
>)
    ensures
        r is Some <==> json_member(*value, key@) is Some,
        r matches Some(m) ==> Some(*m) == json_member(*value, key@),
{
    value.get(key)
}

/// Calls `serde_json::Value::as_str`. Claimed: the outcome is a function of the
/// document.
#[verifier::external_body]
pub(crate) fn string_of<'a>(value: &'a serde_json::Value) -> (r: Option<&'a str>)
    ensures
        r is Some <==> json_string(*value) is Some,
        r matches Some(s) ==> Some(s@) == json_string(*value),
{
    value.as_str()
}

/// The text stored under `key` in `value`: `None` unless `value` is an object
/// whose member `key` is a JSON string.
pub open spec fn string_member(value: serde_json::Value, key: Seq<char>) -> Option<Seq<char>> {
    match json_member(value, key) {
        Some(m) => json_string(m),
        None => None,
    }
}

/// Reads the string stored under `key` in an object.
pub(crate) fn read_string(value: &serde_json::Value, key: &str) -> (r: Option<String>)
    ensures
        r is Some <==> string_member(*value, key@) is Some,
        r matches Some(s) ==> Some(s@) == string_member(*value, key@),
{
    match member(value, key) {
        Some(m) => match string_of(m) {
            Some(s) => Some(s.to_owned()),
            None => None,
        },
        None => None,
    }
}

} // verus!
