//! JSON documents, read with `serde_json`.
//!
//! A parsed value is opaque here. What the contracts say of one, they say of
//! its compact text, which determines the value: two values with the same
//! text are the same value.

use vstd::prelude::*;

verus! {

/// `serde_json::Value`, carried through as it is.
#[verifier::external_type_specification]
#[verifier::external_body]
pub struct ExValue(serde_json::Value);

/// `serde_json::Error`, carried through as it is.
#[verifier::external_type_specification]
#[verifier::external_body]
pub struct ExError(serde_json::Error);

/// What a value holds: its compact JSON text.
pub uninterp spec fn json_text(value: serde_json::Value) -> Seq<char>;

/// The compact text of the value that `serde_json::from_str` reads from an
/// input; none for an input that it rejects.
pub uninterp spec fn parsed_text(input: Seq<char>) -> Option<Seq<char>>;

/// The text of what indexing a value by a key yields (`value[key]`), given
/// the text of the value.
pub uninterp spec fn member_text(value: Seq<char>, key: Seq<char>) -> Seq<char>;

/// The characters of a JSON string, given its text; none for the text of any
/// other kind of value (`Value::as_str`).
pub uninterp spec fn string_content(value: Seq<char>) -> Option<Seq<char>>;

/// The texts of the elements of a JSON array in their order, given its text;
/// none for the text of any other kind of value (`Value::as_array`).
pub uninterp spec fn element_texts(value: Seq<char>) -> Option<Seq<Seq<char>>>;

/// The characters of an optional text.
pub open spec fn chars_of(text: Option<&str>) -> Option<Seq<char>> {
    match text {
        Some(t) => Some(t@),
        None => None,
    }
}

/// `serde_json::from_str` for a `Value`: whether the input is accepted, and
/// which value is read from it, depends on the input alone.
#[verifier::external_body]
pub(crate) fn parse_json(input: &str) -> (parsed: Result<serde_json::Value, serde_json::Error>)
    ensures
        match parsed {
            Ok(value) => parsed_text(input@) == Some(json_text(value)),
            Err(_) => parsed_text(input@) is None,
        },
{
    serde_json::from_str::<serde_json::Value>(input)
}

/// The message of a `serde_json::Error`, as its `Display` gives it.
#[verifier::external_body]
pub(crate) fn parse_message(error: &serde_json::Error) -> (message: String) {
    error.to_string()
}

/// Indexing a `Value` by a string key: what it yields depends on the value
/// and the key alone. It never fails; for a missing key it yields a null.
#[verifier::external_body]
pub(crate) fn member<'a>(value: &'a serde_json::Value, key: &str) -> (found: &'a serde_json::Value)
    ensures
        json_text(*found) == member_text(json_text(*value), key@),
{
    &value[key]
}

/// `Value::as_str`: the characters of a string value, none for any other.
#[verifier::external_body]
pub(crate) fn as_text<'a>(value: &'a serde_json::Value) -> (text: Option<&'a str>)
    ensures
        chars_of(text) == string_content(json_text(*value)),
{
    value.as_str()
}

/// `Value::as_array`: the elements of an array value, none for any other.
#[verifier::external_body]
pub(crate) fn as_elements<'a>(value: &'a serde_json::Value) -> (elements: Option<
    &'a Vec<serde_json::Value>,
>)
    ensures
        match elements {
            Some(list) => element_texts(json_text(*value)) == Some(
                list@.map_values(|element: serde_json::Value| json_text(element)),
            ),
            None => element_texts(json_text(*value)) is None,
        },
{
    value.as_array()
}

} // verus!
