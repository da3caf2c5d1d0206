//! The boundary to `serde_json`: what the decoder reads from a parsed
//! document, each call behind one trusted function.
//!
//! A `serde_json::Value` is opaque here. What it holds is spoken of through
//! the four names below, and each wrapper says that the call it makes returns
//! what the name gives. Nothing in this file is proved.

use vstd::prelude::*;
use serde_json::Value;

verus! {

#[verifier::external_type_specification]
#[verifier::external_body]
pub struct ExValue(serde_json::Value);

#[verifier::external_type_specification]
#[verifier::external_body]
pub struct ExError(serde_json::Error);

/// The document that `serde_json::from_str` reads from `text`, or `None`
/// where it reports an error instead.
pub uninterp spec fn json_document(text: Seq<char>) -> Option<Value>;

/// The member that `Value::get` finds under `key`: `None` unless `value` is
/// an object that holds the key.
pub uninterp spec fn json_member(value: Value, key: Seq<char>) -> Option<Value>;

/// The text that `Value::as_str` hands out: `None` unless `value` is a string.
pub uninterp spec fn json_string(value: Value) -> Option<Seq<char>>;

/// The binary64 encoding of what `Value::as_f64` hands out: `None` unless
/// `value` is a number.
pub uninterp spec fn json_number(value: Value) -> Option<u64>;

/// Calls `serde_json::from_str` for a `Value`. The parser is a function of
/// the text alone, so the contract only ties the outcome to
/// [`json_document`]: success exactly where it is `Some`, and then with that
/// document.
#[verifier::external_body]
pub(crate) fn parse_document(text: &str) -> (r: Result<Value, serde_json::Error>)
    ensures
        match r {
            Ok(doc) => json_document(text@) == Some(doc),
            Err(_) => json_document(text@).is_none(),
        },
{
    serde_json::from_str::<Value>(text)
}

/// Calls `Value::get` with a string key, which looks the key up in an object
/// and returns `None` for every other kind of value. The contract ties the
/// outcome to [`json_member`].
#[verifier::external_body]
pub(crate) fn member<'a>(value: &'a Value, key: &str) -> (r: Option<&'a Value>)
    ensures
        match r {
            Some(found) => json_member(*value, key@) == Some(*found),
            None => json_member(*value, key@).is_none(),
        },
{
    value.get(key)
}

/// Calls `Value::as_str`, which returns the text of a string value and `None`
/// for every other kind. The contract ties the outcome to [`json_string`].
#[verifier::external_body]
pub(crate) fn string_of<'a>(value: &'a Value) -> (r: Option<&'a str>)
    ensures
        match r {
            Some(s) => json_string(*value) == Some(s@),
            None => json_string(*value).is_none(),
        },
{
    value.as_str()
}

/// Calls `Value::as_f64`, which returns a number as a binary64 and `None` for
/// every other kind of value, and hands the float on as its bit pattern. The
/// contract ties the outcome to [`json_number`].
#[verifier::external_body]
pub(crate) fn number_of(value: &Value) -> (r: Option<u64>)
    ensures
        r == json_number(*value),
{
    value.as_f64().map(|rate| rate.to_bits())
}

} // verus!
