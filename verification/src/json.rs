//! JSON as this client needs it: building request bodies and reading the
//! fields of a reply, both through `serde_json`.

use vstd::prelude::*;

verus! {

/// `serde_json::Value`, a JSON value. Nothing is known of one but what
/// `value_model` says it holds.
#[verifier::external_type_specification]
#[verifier::external_body]
pub struct ExJsonValue(serde_json::Value);

/// `serde_json::Error`, why a text was not read. Nothing is read of one.
#[verifier::external_type_specification]
#[verifier::external_body]
pub struct ExJsonError(serde_json::Error);

/// `serde_json::Map`, the entries of a JSON object. Nothing is known of one
/// but what `map_entries` says it holds.
#[verifier::external_type_specification]
#[verifier::external_body]
#[verifier::reject_recursive_types(K)]
#[verifier::reject_recursive_types(V)]
pub struct ExJsonMap<K, V>(serde_json::Map<K, V>);

/// What a JSON value holds, as mathematics.
///
/// A record maps each key to one value: `serde_json` keeps the entries of an
/// object sorted by key, so the order in which they were added is no part of
/// the value.
pub enum JsonModel {
    Null,
    Bool(bool),
    /// A number, by the digits that stand for it in JSON text.
    Number(Seq<char>),
    Text(Seq<char>),
    List(Seq<JsonModel>),
    Record(Map<Seq<char>, JsonModel>),
}

/// What a `serde_json::Value` holds.
pub uninterp spec fn value_model(value: serde_json::Value) -> JsonModel;

/// What a `serde_json::Map` holds: for each of its keys, what the value under
/// that key holds.
pub uninterp spec fn map_entries(map: serde_json::Map<String, serde_json::Value>) -> Map<
    Seq<char>,
    JsonModel,
>;

/// The value that `serde_json::from_str` reads from a text; `None` for a text
/// that it rejects.
pub uninterp spec fn parsed(text: Seq<char>) -> Option<JsonModel>;

/// The text that `serde_json::to_string` writes for a value.
pub uninterp spec fn rendered(doc: JsonModel) -> Seq<char>;

/// `serde_json::from_str` at type `Value`: whether a text is read, and what
/// the value that is read from it holds, depends on the text alone.
#[verifier::external_body]
pub(crate) fn parse(text: &str) -> (r: Result<serde_json::Value, serde_json::Error>)
    ensures
        r is Err <==> parsed(text@) is None,
        r matches Ok(v) ==> parsed(text@) == Some(value_model(v)),
{
    serde_json::from_str::<serde_json::Value>(text)
}

/// `Value::get` with a string index: the entry under `key` where the value is
/// an object that has one, and `None` otherwise.
#[verifier::external_body]
pub(crate) fn member<'a>(value: &'a serde_json::Value, key: &str) -> (r: Option<
    &'a serde_json::Value,
>)
    ensures
        member_of(value_model(*value), key@) == match r {
            Some(found) => Some(value_model(*found)),
            None => None,
        },
{
    value.get(key)
}

/// `Value::as_bool`: the boolean where the value is one.
pub assume_specification[ serde_json::Value::as_bool ](value: &serde_json::Value) -> (r: Option<bool>)
    ensures
        r == flag_of(value_model(*value)),
;

/// `Value::as_str`: the text where the value is a string.
pub assume_specification<'a>[ serde_json::Value::as_str ](value: &'a serde_json::Value) -> (r: Option<&'a str>)
    ensures
        text_of(value_model(*value)) == match r {
            Some(text) => Some(text@),
            None => None,
        },
;

/// `Map::new`: a map without entries.
#[verifier::external_body]
pub(crate) fn empty_entries() -> (r: serde_json::Map<String, serde_json::Value>)
    ensures
        map_entries(r) == no_entries(),
{
    serde_json::Map::new()
}

/// `Map::insert`: the entry under `key` is set to `value`, whether or not the
/// key was there before; the other entries stay.
#[verifier::external_body]
pub(crate) fn set_entry(
    entries: &mut serde_json::Map<String, serde_json::Value>,
    key: String,
    value: serde_json::Value,
)
    ensures
        map_entries(*final(entries)) == map_entries(*old(entries)).insert(key@, value_model(value)),
{
    entries.insert(key, value);
}

/// The variant `Value::String`: a value that holds the text.
#[verifier::external_body]
pub(crate) fn text_value(text: String) -> (r: serde_json::Value)
    ensures
        value_model(r) == JsonModel::Text(text@),
{
    serde_json::Value::String(text)
}

/// The variant `Value::Array`: a value that holds what the items hold, in
/// their order.
#[verifier::external_body]
pub(crate) fn list_value(items: Vec<serde_json::Value>) -> (r: serde_json::Value)
    ensures
        value_model(r) == JsonModel::List(
            items@.map_values(|item: serde_json::Value| value_model(item)),
        ),
{
    serde_json::Value::Array(items)
}

/// The variant `Value::Object`: a value that holds the entries of the map.
#[verifier::external_body]
pub(crate) fn record_value(entries: serde_json::Map<String, serde_json::Value>) -> (r: serde_json::Value)
    ensures
        value_model(r) == JsonModel::Record(map_entries(entries)),
{
    serde_json::Value::Object(entries)
}

/// `serde_json::to_string` on a `Value`: the text depends on what the value
/// holds, and on nothing else. Writing a `Value` into memory does not fail,
/// since its keys are strings; the empty text would stand for a failure.
#[verifier::external_body]
pub(crate) fn render(value: &serde_json::Value) -> (text: String)
    ensures
        text@ == rendered(value_model(*value)),
{
    serde_json::to_string(value).unwrap_or_default()
}

/// The entry of a record under a key; `None` for a record without that key
/// and for anything that is no record.
pub open spec fn member_of(doc: JsonModel, key: Seq<char>) -> Option<JsonModel> {
    match doc {
        JsonModel::Record(entries) => if entries.contains_key(key) {
            Some(entries[key])
        } else {
            None
        },
        _ => None,
    }
}

/// The record without entries.
pub open spec fn no_entries() -> Map<Seq<char>, JsonModel> {
    Map::empty()
}

/// The boolean that a document is, if it is one.
pub open spec fn flag_of(doc: JsonModel) -> Option<bool> {
    match doc {
        JsonModel::Bool(flag) => Some(flag),
        _ => None,
    }
}

/// The text that a document is, if it is one.
pub open spec fn text_of(doc: JsonModel) -> Option<Seq<char>> {
    match doc {
        JsonModel::Text(text) => Some(text),
        _ => None,
    }
}

} // verus!
