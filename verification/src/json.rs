//! JSON documents as `serde_json` reads them, seen through what a webhook
//! event needs: the members of an object, the items of an array, a string.

use vstd::prelude::*;
use serde_json::Value;

verus! {

#[verifier::external_type_specification]
#[verifier::external_body]
pub struct ExValue(Value);

#[verifier::external_type_specification]
#[verifier::external_body]
pub struct ExJsonError(serde_json::Error);

/// The value that a text parses to as one JSON document, if it is one.
pub uninterp spec fn json_document(text: Seq<char>) -> Option<Value>;

/// The members of a JSON object by their keys; of any other value, none.
pub uninterp spec fn json_members(value: Value) -> Map<Seq<char>, Value>;

/// The items of a JSON array in order; `None` of any other value.
pub uninterp spec fn json_list(value: Value) -> Option<Seq<Value>>;

/// The characters of a JSON string; `None` of any other value.
pub uninterp spec fn json_text(value: Value) -> Option<Seq<char>>;

/// `serde_json::from_str` at the type `Value`: the document that the text
/// holds, or the parser's error where it holds none.
#[verifier::external_body]
pub(crate) fn parse_document(text: &str) -> (parsed: Result<Value, serde_json::Error>)
    ensures
        match parsed {
            Ok(value) => json_document(text@) == Some(value),
            Err(_) => json_document(text@).is_none(),
        },
{
    serde_json::from_str::<Value>(text)
}

/// Indexing a `Value` by a string key: the member under that key where the
/// value is an object that has it, else a null, which is neither a string nor
/// an array and has no members.
#[verifier::external_body]
pub(crate) fn member<'a>(value: &'a Value, key: &str) -> (found: &'a Value)
    ensures
        json_members(*value).contains_key(key@) ==> *found == json_members(*value)[key@],
        !json_members(*value).contains_key(key@) ==> {
            &&& json_text(*found).is_none()
            &&& json_list(*found).is_none()
            &&& json_members(*found) == Map::<Seq<char>, Value>::empty()
        },
{
    &value[key]
}

/// `Value::as_str`: the string that the value is, if it is one.
#[verifier::external_body]
pub(crate) fn text_of<'a>(value: &'a Value) -> (text: Option<&'a str>)
    ensures
        match text {
            Some(t) => json_text(*value) == Some(t@),
            None => json_text(*value).is_none(),
        },
{
    value.as_str()
}

/// `Value::as_array`: the items of the value, if it is an array.
#[verifier::external_body]
pub(crate) fn items_of(value: &Value) -> (items: Option<&Vec<Value>>)
    ensures
        match items {
            Some(list) => json_list(*value) == Some(list@),
            None => json_list(*value).is_none(),
        },
{
    value.as_array()
}

} // verus!
