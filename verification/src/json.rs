//! JSON documents, as `serde_json` reads them.
//!
//! Reading JSON text is left to `serde_json`; nothing here repeats its
//! grammar. A document stays a `serde_json::Value`, and the few questions
//! the crate asks of one are stated against a mathematical picture of it,
//! [`Json`]. Those statements are trusted, not proved: each one below names
//! the function it speaks for.

use vstd::prelude::*;

verus! {

#[verifier::external_type_specification]
#[verifier::external_body]
pub struct ExValue(serde_json::Value);

#[verifier::external_type_specification]
#[verifier::external_body]
pub struct ExError(serde_json::Error);

/// What a JSON document holds. A number's value is of no interest here and
/// is left out.
pub enum Json {
    Null,
    Bool(bool),
    Number,
    Text(Seq<char>),
    Array(Seq<Json>),
    Object(Map<Seq<char>, Json>),
}

/// What a `serde_json::Value` holds.
pub uninterp spec fn json_of(value: serde_json::Value) -> Json;

/// What `serde_json` reads from a text: the document, or nothing where the
/// text is not one JSON document.
pub uninterp spec fn parsed(text: Seq<char>) -> Option<Json>;

/// Reads a text as one JSON document.
///
/// Trusted: this is `serde_json::from_str` at `serde_json::Value`. Its
/// result depends on the text alone; the contract only gives that result its
/// name.
#[verifier::external_body]
pub(crate) fn parse(text: &str) -> (read: Result<serde_json::Value, serde_json::Error>)
    ensures
        match read {
            Ok(value) => parsed(text@) == Some(json_of(value)),
            Err(_) => parsed(text@) is None,
        },
{
    serde_json::from_str::<serde_json::Value>(text)
}

/// Looks a key up in an object.
///
/// Trusted: this is `serde_json::Value::get` with a string. It finds the
/// member of that name where the value is an object that has one, and
/// nothing otherwise.
#[verifier::external_body]
pub(crate) fn member<'a>(value: &'a serde_json::Value, key: &str) -> (found: Option<
    &'a serde_json::Value,
>)
    ensures
        match found {
            Some(inner) => json_of(*value) is Object && json_of(*value)->Object_0.contains_key(
                key@,
            ) && json_of(*value)->Object_0[key@] == json_of(*inner),
            None => !(json_of(*value) is Object && json_of(*value)->Object_0.contains_key(key@)),
        },
{
    value.get(key)
}

/// The elements of an array.
///
/// Trusted: this is `serde_json::Value::as_array`. It hands out the elements
/// where the value is an array, and nothing otherwise.
#[verifier::external_body]
pub(crate) fn elements<'a>(value: &'a serde_json::Value) -> (found: Option<
    &'a Vec<serde_json::Value>,
>)
    ensures
        match found {
            Some(list) => json_of(*value) is Array && json_of(*value)->Array_0.len() == list@.len()
                && forall|i: int|
                0 <= i < list@.len() ==> json_of(*value)->Array_0[i] == json_of(#[trigger] list@[i]),
            None => !(json_of(*value) is Array),
        },
{
    value.as_array()
}

/// The text of a string.
///
/// Trusted: this is `serde_json::Value::as_str`. It hands out the text where
/// the value is a string, and nothing otherwise.
#[verifier::external_body]
pub(crate) fn text<'a>(value: &'a serde_json::Value) -> (found: Option<&'a str>)
    ensures
        match found {
            Some(inner) => json_of(*value) == Json::Text(inner@),
            None => !(json_of(*value) is Text),
        },
{
    value.as_str()
}

/// Whether a value is `null`.
///
/// Trusted: this is `serde_json::Value::is_null`.
#[verifier::external_body]
pub(crate) fn is_null(value: &serde_json::Value) -> (null: bool)
    ensures
        null == (json_of(*value) is Null),
{
    value.is_null()
}

/// Whether a value is an object.
///
/// Trusted: this is `serde_json::Value::is_object`.
#[verifier::external_body]
pub(crate) fn is_object(value: &serde_json::Value) -> (object: bool)
    ensures
        object == (json_of(*value) is Object),
{
    value.is_object()
}

} // verus!
