//! JSON values, as the registry sends and takes them.
use vstd::prelude::*;
use vstd::string::*;

verus! {

/// What a JSON value says. Of a number only the value that it has as an
/// unsigned integer, if it has one; of a truth value only that it is none of
/// the others.
pub enum JsonView {
    Null,
    Number(Option<u64>),
    Text(Seq<char>),
    List(Seq<JsonView>),
    Object(Map<Seq<char>, JsonView>),
    Other,
}

/// `serde_json::Value`: a JSON value, seen only through `json_model`.
#[verifier::external_type_specification]
#[verifier::external_body]
pub struct ExJsonValue(serde_json::Value);

/// `serde_json::Map`: a JSON object, seen only through `object_model`.
#[verifier::external_type_specification]
#[verifier::external_body]
#[verifier::reject_recursive_types(K)]
#[verifier::reject_recursive_types(V)]
pub struct ExJsonMap<K, V>(serde_json::Map<K, V>);

/// `serde_json::Error`: why a text is no JSON, or a value could not be
/// written. Nothing is read from it.
#[verifier::external_type_specification]
#[verifier::external_body]
pub struct ExJsonError(serde_json::Error);

/// What a value of the JSON library says.
pub uninterp spec fn json_model(value: serde_json::Value) -> JsonView;

/// What an object of the JSON library holds: its keys with what their values
/// say.
pub uninterp spec fn object_model(object: serde_json::Map<String, serde_json::Value>) -> Map<
    Seq<char>,
    JsonView,
>;

/// The value that a text stands for when read as JSON, if it is JSON.
pub uninterp spec fn json_document(text: Seq<char>) -> Option<JsonView>;

/// The text that the JSON library writes for a value made of nulls, texts,
/// lists and objects, if it can write it.
pub uninterp spec fn json_text(value: JsonView) -> Option<Seq<char>>;

/// What each value of a list says, in the list's order.
pub open spec fn json_list_model(items: Seq<serde_json::Value>) -> Seq<JsonView> {
    items.map_values(|v: serde_json::Value| json_model(v))
}

/// Whether a value is made of nulls, texts, lists and objects only.
pub open spec fn is_plain_json(value: JsonView) -> bool
    decreases value,
{
    match value {
        JsonView::Null => true,
        JsonView::Text(_) => true,
        JsonView::List(items) => forall|i: int|
            0 <= i < items.len() ==> is_plain_json(#[trigger] items[i]),
        JsonView::Object(members) => forall|key: Seq<char>|
            members.contains_key(key) ==> is_plain_json(#[trigger] members[key]),
        _ => false,
    }
}

/// The member `key` of a JSON value: only an object has members.
pub open spec fn json_member(value: JsonView, key: Seq<char>) -> Option<JsonView> {
    match value {
        JsonView::Object(members) => if members.contains_key(key) {
            Some(members[key])
        } else {
            None
        },
        _ => None,
    }
}

/// The object that holds nothing.
pub open spec fn empty_object() -> Map<Seq<char>, JsonView> {
    Map::empty()
}

/// The number that a value says, if it says one.
pub open spec fn json_number(value: JsonView) -> Option<u64> {
    match value {
        JsonView::Number(n) => n,
        _ => None,
    }
}

/// `serde_json::from_str` for a `Value`: the text is read as one JSON value.
/// It succeeds exactly on the texts that are JSON to the library, and the
/// value says what the text says.
#[verifier::external_body]
pub(crate) fn parse_json(text: &str) -> (r: Result<serde_json::Value, serde_json::Error>)
    ensures
        match r {
            Ok(value) => json_document(text@) == Some(json_model(value)),
            Err(_) => json_document(text@) is None,
        },
{
    serde_json::from_str::<serde_json::Value>(text)
}

/// `serde_json::to_string` for a value made of nulls, texts, lists and
/// objects: the value as text. It gives the text that the library writes
/// for what the value says, and fails where the library cannot write it.
#[verifier::external_body]
pub(crate) fn render_json(value: &serde_json::Value) -> (r: Result<String, serde_json::Error>)
    requires
        is_plain_json(json_model(*value)),
    ensures
        match r {
            Ok(text) => json_text(json_model(*value)) == Some(text@),
            Err(_) => json_text(json_model(*value)) is None,
        },
{
    serde_json::to_string(value)
}

/// `Value::get` with a string: the member of that name, if the value is an
/// object that has one.
#[verifier::external_body]
pub(crate) fn member<'a>(value: &'a serde_json::Value, key: &str) -> (r: Option<
    &'a serde_json::Value,
>)
    ensures
        match r {
            Some(found) => json_member(json_model(*value), key@) == Some(json_model(*found)),
            None => json_member(json_model(*value), key@) is None,
        },
{
    value.get(key)
}

/// `Value::as_str`: the text of a value that is a string, and nothing for
/// any other value.
#[verifier::external_body]
pub(crate) fn text_of<'a>(value: &'a serde_json::Value) -> (r: Option<&'a str>)
    ensures
        match r {
            Some(text) => json_model(*value) == JsonView::Text(text@),
            None => !(json_model(*value) is Text),
        },
{
    value.as_str()
}

/// `Value::as_array`: the items of a value that is an array, and nothing
/// for any other value.
#[verifier::external_body]
pub(crate) fn list_of<'a>(value: &'a serde_json::Value) -> (r: Option<&'a Vec<serde_json::Value>>)
    ensures
        match r {
            Some(items) => json_model(*value) == JsonView::List(json_list_model(items@)),
            None => !(json_model(*value) is List),
        },
{
    value.as_array()
}

/// `Value::as_u64`: the number of a value that is an integer from zero up
/// that fits, and nothing for any other value.
#[verifier::external_body]
pub(crate) fn number_of(value: &serde_json::Value) -> (r: Option<u64>)
    ensures
        r == json_number(json_model(*value)),
{
    value.as_u64()
}

/// `Value::Null`: the null value.
#[verifier::external_body]
pub(crate) fn null_value() -> (r: serde_json::Value)
    ensures
        json_model(r) == JsonView::Null,
{
    serde_json::Value::Null
}

/// `Value::String`: the value that is the given string.
#[verifier::external_body]
pub(crate) fn text_value(text: &str) -> (r: serde_json::Value)
    ensures
        json_model(r) == JsonView::Text(text@),
{
    serde_json::Value::String(text.to_string())
}

/// `Value::Array`: the value that is the array of the given items.
#[verifier::external_body]
pub(crate) fn list_value(items: Vec<serde_json::Value>) -> (r: serde_json::Value)
    ensures
        json_model(r) == JsonView::List(json_list_model(items@)),
{
    serde_json::Value::Array(items)
}

/// `Value::Object`: the value that is the given object.
#[verifier::external_body]
pub(crate) fn object_value(object: serde_json::Map<String, serde_json::Value>) -> (r:
    serde_json::Value)
    ensures
        json_model(r) == JsonView::Object(object_model(object)),
{
    serde_json::Value::Object(object)
}

/// `Map::new`: an object that holds nothing.
#[verifier::external_body]
pub(crate) fn new_object() -> (r: serde_json::Map<String, serde_json::Value>)
    ensures
        object_model(r) == empty_object(),
{
    serde_json::Map::new()
}

/// `Map::insert`: afterwards the object holds the value under the key, in
/// place of what it held there, and everything else as before.
#[verifier::external_body]
pub(crate) fn insert_member(
    object: &mut serde_json::Map<String, serde_json::Value>,
    key: &str,
    value: serde_json::Value,
)
    ensures
        object_model(*final(object)) == object_model(*old(object)).insert(key@, json_model(value)),
{
    object.insert(key.to_string(), value);
}

} // verus!
