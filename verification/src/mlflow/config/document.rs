//! Configuration documents: the tables that the configuration files hold,
//! between their text and the records.
use crate::text::optional_text;
use vstd::prelude::*;
use vstd::string::*;

verus! {

/// What a value of a configuration document says. Of a number, a truth value
/// and a date only that it is none of the others.
pub enum TomlView {
    Text(Seq<char>),
    List(Seq<TomlView>),
    Table(Map<Seq<char>, TomlView>),
    Other,
}

/// `toml::Value`: a value of a document, seen only through `toml_model`.
#[verifier::external_type_specification]
#[verifier::external_body]
pub struct ExTomlValue(toml::Value);

/// `toml::map::Map`: a table of a document, seen only through
/// `table_model`.
#[verifier::external_type_specification]
#[verifier::external_body]
#[verifier::reject_recursive_types(K)]
#[verifier::reject_recursive_types(V)]
pub struct ExTomlMap<K, V>(toml::map::Map<K, V>);

/// `toml::de::Error`: why a text is no document. Nothing is read from it.
#[verifier::external_type_specification]
#[verifier::external_body]
pub struct ExTomlReadError(toml::de::Error);

/// `toml::ser::Error`: why a table could not be written. Nothing is read
/// from it.
#[verifier::external_type_specification]
#[verifier::external_body]
pub struct ExTomlWriteError(toml::ser::Error);

/// What a value of the TOML library says.
pub uninterp spec fn toml_model(value: toml::Value) -> TomlView;

/// What a table of the TOML library holds: its keys with what their values
/// say.
pub uninterp spec fn table_model(table: toml::map::Map<String, toml::Value>) -> Map<
    Seq<char>,
    TomlView,
>;

/// The table that a text stands for when read as a TOML document, if it is
/// one.
pub uninterp spec fn toml_document(text: Seq<char>) -> Option<Map<Seq<char>, TomlView>>;

/// The text that the TOML library writes for a table of texts, lists and
/// tables, if it can write it.
pub uninterp spec fn toml_text(document: Map<Seq<char>, TomlView>) -> Option<Seq<char>>;

/// What each value of a list says, in the list's order.
pub open spec fn list_model(items: Seq<toml::Value>) -> Seq<TomlView> {
    items.map_values(|v: toml::Value| toml_model(v))
}

/// Whether a value is made of texts, lists and tables only.
pub open spec fn is_plain(value: TomlView) -> bool
    decreases value,
{
    match value {
        TomlView::Text(_) => true,
        TomlView::List(items) => forall|i: int| 0 <= i < items.len() ==> is_plain(#[trigger] items[i]),
        TomlView::Table(entries) => forall|key: Seq<char>|
            entries.contains_key(key) ==> is_plain(#[trigger] entries[key]),
        TomlView::Other => false,
    }
}

/// `toml::from_str` for a table: the text is read as one TOML document. It
/// succeeds exactly on the texts that are documents to the library, and the
/// table holds what the text says.
#[verifier::external_body]
pub(crate) fn parse(text: &str) -> (r: Result<
    toml::map::Map<String, toml::Value>,
    toml::de::Error,
>)
    ensures
        match r {
            Ok(table) => toml_document(text@) == Some(table_model(table)),
            Err(_) => toml_document(text@) is None,
        },
{
    toml::from_str::<toml::map::Map<String, toml::Value>>(text)
}

/// `toml::to_string` for a table of texts, lists and tables: the document
/// as text. It gives the text that the library writes for what the table
/// holds, and fails where the library cannot write it.
#[verifier::external_body]
pub(crate) fn render(table: &toml::map::Map<String, toml::Value>) -> (r: Result<
    String,
    toml::ser::Error,
>)
    requires
        is_plain(TomlView::Table(table_model(*table))),
    ensures
        match r {
            Ok(text) => toml_text(table_model(*table)) == Some(text@),
            Err(_) => toml_text(table_model(*table)) is None,
        },
{
    toml::to_string(table)
}

/// `Map::get`: the value under a key, if the table has the key.
#[verifier::external_body]
pub(crate) fn get<'a>(table: &'a toml::map::Map<String, toml::Value>, key: &str) -> (r: Option<
    &'a toml::Value,
>)
    ensures
        match r {
            Some(value) => table_model(*table).contains_key(key@) && table_model(*table)[key@]
                == toml_model(*value),
            None => !table_model(*table).contains_key(key@),
        },
{
    table.get(key)
}

/// `Value::as_str`: the text of a value that is a string, and nothing for
/// any other value.
#[verifier::external_body]
pub(crate) fn as_text<'a>(value: &'a toml::Value) -> (r: Option<&'a str>)
    ensures
        match r {
            Some(text) => toml_model(*value) == TomlView::Text(text@),
            None => !(toml_model(*value) is Text),
        },
{
    value.as_str()
}

/// `Value::as_array`: the items of a value that is an array, and nothing
/// for any other value.
#[verifier::external_body]
pub(crate) fn as_list<'a>(value: &'a toml::Value) -> (r: Option<&'a Vec<toml::Value>>)
    ensures
        match r {
            Some(items) => toml_model(*value) == TomlView::List(list_model(items@)),
            None => !(toml_model(*value) is List),
        },
{
    value.as_array()
}

/// `Value::as_table`: the table of a value that is a table, and nothing for
/// any other value.
#[verifier::external_body]
pub(crate) fn as_table<'a>(value: &'a toml::Value) -> (r: Option<
    &'a toml::map::Map<String, toml::Value>,
>)
    ensures
        match r {
            Some(table) => toml_model(*value) == TomlView::Table(table_model(*table)),
            None => !(toml_model(*value) is Table),
        },
{
    value.as_table()
}

/// The table that holds nothing.
pub open spec fn empty_table() -> Map<Seq<char>, TomlView> {
    Map::empty()
}

/// `Map::new`: a table that holds nothing.
#[verifier::external_body]
pub(crate) fn new_table() -> (r: toml::map::Map<String, toml::Value>)
    ensures
        table_model(r) == empty_table(),
{
    toml::map::Map::new()
}

/// `Map::insert`: afterwards the table holds the value under the key, in
/// place of what it held there, and everything else as before.
#[verifier::external_body]
pub(crate) fn insert(
    table: &mut toml::map::Map<String, toml::Value>,
    key: &str,
    value: toml::Value,
)
    ensures
        table_model(*final(table)) == table_model(*old(table)).insert(key@, toml_model(value)),
{
    table.insert(key.to_string(), value);
}

/// `Value::String`: the value that is the given string.
#[verifier::external_body]
pub(crate) fn text_value(text: &str) -> (r: toml::Value)
    ensures
        toml_model(r) == TomlView::Text(text@),
{
    toml::Value::String(text.to_string())
}

/// `Value::Array`: the value that is the array of the given items.
#[verifier::external_body]
pub(crate) fn list_value(items: Vec<toml::Value>) -> (r: toml::Value)
    ensures
        toml_model(r) == TomlView::List(list_model(items@)),
{
    toml::Value::Array(items)
}

/// `Value::Table`: the value that is the given table.
#[verifier::external_body]
pub(crate) fn table_value(table: toml::map::Map<String, toml::Value>) -> (r: toml::Value)
    ensures
        toml_model(r) == TomlView::Table(table_model(table)),
{
    toml::Value::Table(table)
}

/// The text under `key`, where the table has the key with a text under it.
pub open spec fn text_at(table: Map<Seq<char>, TomlView>, key: Seq<char>) -> Option<Seq<char>> {
    if table.contains_key(key) {
        match table[key] {
            TomlView::Text(text) => Some(text),
            _ => None,
        }
    } else {
        None
    }
}

/// The text under a key that may be left out: `Some(None)` where the table
/// does not have the key, and nothing at all where the key has anything but
/// a text under it.
pub open spec fn optional_text_at(table: Map<Seq<char>, TomlView>, key: Seq<char>) -> Option<
    Option<Seq<char>>,
> {
    if table.contains_key(key) {
        match table[key] {
            TomlView::Text(text) => Some(Some(text)),
            _ => None,
        }
    } else {
        Some(None)
    }
}

/// `table` with the text under `key`, where there is a text to put.
pub open spec fn with_optional_text(
    table: Map<Seq<char>, TomlView>,
    key: Seq<char>,
    text: Option<Seq<char>>,
) -> Map<Seq<char>, TomlView> {
    match text {
        Some(t) => table.insert(key, TomlView::Text(t)),
        None => table,
    }
}

/// The table under `key`, where the table has the key with a table under it.
pub open spec fn table_at(table: Map<Seq<char>, TomlView>, key: Seq<char>) -> Option<
    Map<Seq<char>, TomlView>,
> {
    if table.contains_key(key) {
        match table[key] {
            TomlView::Table(inner) => Some(inner),
            _ => None,
        }
    } else {
        None
    }
}

/// The text of an optional string that may be wrong.
pub open spec fn optional_texts(o: Option<Option<String>>) -> Option<Option<Seq<char>>> {
    match o {
        Some(text) => Some(optional_text(text)),
        None => None,
    }
}

/// Reads the text under a key.
pub fn read_text(table: &toml::map::Map<String, toml::Value>, key: &str) -> (r: Option<String>)
    ensures
        optional_text(r) == text_at(table_model(*table), key@),
{
    match get(table, key) {
        Some(value) => match as_text(value) {
            Some(text) => Some(text.to_owned()),
            None => None,
        },
        None => None,
    }
}

/// Reads the text under a key that may be left out.
pub fn read_optional_text(table: &toml::map::Map<String, toml::Value>, key: &str) -> (r: Option<
    Option<String>,
>)
    ensures
        optional_texts(r) == optional_text_at(table_model(*table), key@),
{
    match get(table, key) {
        Some(value) => match as_text(value) {
            Some(text) => Some(Some(text.to_owned())),
            None => None,
        },
        None => Some(None),
    }
}

/// Reads the table under a key.
pub fn read_table<'a>(table: &'a toml::map::Map<String, toml::Value>, key: &str) -> (r: Option<
    &'a toml::map::Map<String, toml::Value>,
>)
    ensures
        match r {
            Some(inner) => table_at(table_model(*table), key@) == Some(table_model(*inner)),
            None => table_at(table_model(*table), key@) is None,
        },
{
    match get(table, key) {
        Some(value) => as_table(value),
        None => None,
    }
}

/// Puts a text under a key.
pub fn write_text(table: &mut toml::map::Map<String, toml::Value>, key: &str, text: &str)
    ensures
        table_model(*final(table)) == table_model(*old(table)).insert(key@, TomlView::Text(text@)),
{
    insert(table, key, text_value(text));
}

/// Puts a text under a key, where there is a text to put.
pub fn write_optional_text(
    table: &mut toml::map::Map<String, toml::Value>,
    key: &str,
    text: &Option<String>,
)
    ensures
        table_model(*final(table)) == with_optional_text(
            table_model(*old(table)),
            key@,
            optional_text(*text),
        ),
{
    match text {
        Some(t) => {
            write_text(table, key, t.as_str());
        },
        None => {},
    }
}

} // verus!
