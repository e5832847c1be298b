//! JSON values as they travel through the conversation model.
//!
//! A JSON value is a `serde_json::Value`. The verifier treats it as an
//! opaque value that is carried through: everything that makes one or looks
//! inside one goes through the small functions of this module, each of
//! which is one call into `serde_json` with a trusted contract. Where the
//! result of a call cannot be written down in a few lines, the contract
//! gives it a name and says no more.

use vstd::prelude::*;

verus! {

/// `serde_json::Value`, as a value that the verifier cannot look into.
#[verifier::external_type_specification]
#[verifier::external_body]
pub struct ExValue(serde_json::Value);

/// `Clone::clone` of `serde_json::Value`: the copy is the same JSON value.
pub assume_specification[ <serde_json::Value as Clone>::clone ](v: &serde_json::Value) -> (r:
    serde_json::Value)
    ensures
        r == *v,
;

/// The value that `serde_json::from_str::<Value>` yields for a text, or
/// `None` where it reports an error.
pub uninterp spec fn parsed_json(text: Seq<char>) -> Option<serde_json::Value>;

/// The JSON string that `Value::from` makes of a text.
pub uninterp spec fn json_string(text: Seq<char>) -> serde_json::Value;

/// The JSON object with the single member `key: value`, as collecting one
/// pair into a `Value` makes it.
pub uninterp spec fn json_member(key: Seq<char>, value: serde_json::Value) -> serde_json::Value;

/// The JSON array of strings that `Value::from` makes of a list of texts.
pub uninterp spec fn json_strings(items: Seq<Seq<char>>) -> serde_json::Value;

/// The compact JSON text that `serde_json::to_string` writes for a value.
pub uninterp spec fn json_rendered(value: serde_json::Value) -> Seq<char>;

/// The text that the `Display` implementation of a value writes.
pub uninterp spec fn json_displayed(value: serde_json::Value) -> Seq<char>;

/// The JSON value `null`: what the text `null` parses to.
pub open spec fn json_null() -> serde_json::Value {
    parsed_json("null"@)->0
}

/// The JSON object without members: what the text `{}` parses to.
pub open spec fn json_empty_object() -> serde_json::Value {
    parsed_json("{}"@)->0
}

/// Parses a text as one JSON value with `serde_json::from_str`, dropping
/// the error where there is one. The contract only names the outcome:
/// parsing is a function of the text.
#[verifier::external_body]
pub(crate) fn parse_json(text: &str) -> (r: Option<serde_json::Value>)
    ensures
        r == parsed_json(text@),
{
    serde_json::from_str::<serde_json::Value>(text).ok()
}

/// `Value::Null`, which is what `serde_json::from_str` makes of the text
/// `null`.
#[verifier::external_body]
pub(crate) fn null_value() -> (r: serde_json::Value)
    ensures
        parsed_json("null"@) == Some(r),
{
    serde_json::Value::Null
}

/// An object with an empty `serde_json::Map`, which is what
/// `serde_json::from_str` makes of the text `{}`.
#[verifier::external_body]
pub(crate) fn empty_object() -> (r: serde_json::Value)
    ensures
        parsed_json("{}"@) == Some(r),
{
    serde_json::Value::Object(serde_json::Map::new())
}

/// `Value::from(&str)`: the JSON string with this text.
#[verifier::external_body]
pub(crate) fn string_value(text: &str) -> (r: serde_json::Value)
    ensures
        r == json_string(text@),
{
    serde_json::Value::from(text)
}

/// `Value::from_iter` on one key and value: the object with that single
/// member.
#[verifier::external_body]
pub(crate) fn member_object(key: &str, value: serde_json::Value) -> (r: serde_json::Value)
    ensures
        r == json_member(key@, value),
{
    serde_json::Value::from_iter([(key, value)])
}

/// `Value::from(Vec<String>)`: the array of the JSON strings with these
/// texts, in order.
#[verifier::external_body]
pub(crate) fn strings_value(items: Vec<String>) -> (r: serde_json::Value)
    ensures
        r == json_strings(items.deep_view()),
{
    serde_json::Value::from(items)
}

/// `serde_json::to_string` of a value, with the empty text in place of an
/// error. The contract only names the outcome.
#[verifier::external_body]
pub(crate) fn rendered(value: &serde_json::Value) -> (r: String)
    ensures
        r@ == json_rendered(*value),
{
    serde_json::to_string(value).unwrap_or_default()
}

/// `ToString::to_string` of a value, which goes through its `Display`
/// implementation. The contract only names the outcome.
#[verifier::external_body]
pub(crate) fn displayed(value: &serde_json::Value) -> (r: String)
    ensures
        r@ == json_displayed(*value),
{
    value.to_string()
}

/// `PartialEq::eq` of a value and the object without members: whether the
/// value is that object.
#[verifier::external_body]
pub(crate) fn is_empty_object(value: &serde_json::Value) -> (r: bool)
    ensures
        r == (*value == json_empty_object()),
{
    *value == serde_json::Value::Object(serde_json::Map::new())
}

} // verus!
