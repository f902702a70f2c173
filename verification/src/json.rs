//! JSON documents, as far as the directory client reads them.
//!
//! Parsing and the document type come from `serde_json`. What a document
//! holds is modelled by [`Json`]; the items below that have no body, or whose
//! body is not verified, state what `serde_json` does and are taken on trust.

use vstd::prelude::*;
use serde_json::Value;

verus! {

/// `serde_json::Value`, a parsed JSON document.
#[verifier::external_type_specification]
#[verifier::external_body]
pub struct ExValue(serde_json::Value);

/// `serde_json::Error`, the reason why a text could not be parsed.
#[verifier::external_type_specification]
#[verifier::external_body]
pub struct ExError(serde_json::Error);

/// What a JSON document holds. Numbers are not told apart.
pub enum Json {
    Null,
    Bool(bool),
    Number,
    Text(Seq<char>),
    List(Seq<Json>),
    Object(Map<Seq<char>, Json>),
}

/// What a `serde_json::Value` holds: `Value::Null` is [`Json::Null`],
/// `Value::String` is [`Json::Text`] with the same characters, `Value::Array`
/// is [`Json::List`] of what its items hold in the same order, and
/// `Value::Object` is [`Json::Object`] of what its members hold under the same
/// keys.
pub uninterp spec fn json_of(value: Value) -> Json;

/// What `serde_json::from_str` makes of a text: the document that it parses
/// to, or `None` where the text is not one JSON document.
pub uninterp spec fn json_parse(text: Seq<char>) -> Option<Json>;

/// What each of a list of values holds.
pub open spec fn jsons_of(values: Seq<Value>) -> Seq<Json> {
    values.map_values(|v: Value| json_of(v))
}

/// The member `key` of an object; null for a missing member and for a
/// document that is no object.
pub open spec fn member(doc: Json, key: Seq<char>) -> Json {
    match doc {
        Json::Object(members) => if members.contains_key(key) {
            members[key]
        } else {
            Json::Null
        },
        _ => Json::Null,
    }
}

/// The characters of a document that is a string.
pub open spec fn text_of(doc: Json) -> Option<Seq<char>> {
    match doc {
        Json::Text(s) => Some(s),
        _ => None,
    }
}

/// The characters of the member `key`, where that member is a string.
pub open spec fn text_member(doc: Json, key: Seq<char>) -> Option<Seq<char>> {
    text_of(member(doc, key))
}

/// `serde_json::from_str::<Value>`: parsing depends on the text alone, and
/// the value returned holds the document that [`json_parse`] names.
#[verifier::external_body]
pub(crate) fn parse_json(text: &str) -> (r: Result<Value, serde_json::Error>)
    ensures
        match r {
            Ok(value) => json_parse(text@) == Some(json_of(value)),
            Err(_) => json_parse(text@) is None,
        },
{
    serde_json::from_str::<Value>(text)
}

/// Indexing a `serde_json::Value` by a string: the member of that name, and
/// a null value where there is none or where the value is no object.
#[verifier::external_body]
pub(crate) fn json_member<'a>(value: &'a Value, key: &str) -> (r: &'a Value)
    ensures
        json_of(*r) == member(json_of(*value), key@),
{
    &value[key]
}

/// `Value::as_str` returns the string that a string value holds, and `None`
/// for every other value.
pub assume_specification<'a>[ serde_json::Value::as_str ](value: &'a Value) -> (r: Option<&'a str>)
    ensures
        r.deep_view() == text_of(json_of(*value)),
;

/// `Value::as_array` returns the items of an array value, and `None` for
/// every other value.
pub assume_specification<'a>[ serde_json::Value::as_array ](value: &'a Value) -> (r: Option<
    &'a Vec<Value>,
>)
    ensures
        match json_of(*value) {
            Json::List(items) => r is Some && jsons_of(r->0@) == items,
            _ => r is None,
        },
;

/// `Value::is_null` tells whether the value is null.
pub assume_specification[ serde_json::Value::is_null ](value: &Value) -> (r: bool)
    ensures
        r == (json_of(*value) is Null),
;

} // verus!
