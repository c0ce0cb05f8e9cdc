//! JSON documents, as `serde_json` parses, holds and prints them.
//!
//! A `serde_json::Value` is opaque to the verifier. What the rest of the crate
//! reads from one is described by [`JsonModel`], and every function here that
//! touches a value says over that model what the call does.

use vstd::prelude::*;

verus! {

/// The mathematical content of a JSON value.
#[verifier::ext_equal]
pub enum JsonModel {
    Null,
    Bool(bool),
    /// A number, by the digits `serde_json` prints for it.
    Number(Seq<char>),
    Text(Seq<char>),
    List(Seq<JsonModel>),
    Object(Map<Seq<char>, JsonModel>),
}

impl JsonModel {
    /// The member stored under `key`, where this is an object that has one.
    pub open spec fn member(self, key: Seq<char>) -> Option<JsonModel> {
        match self {
            JsonModel::Object(entries) => if entries.contains_key(key) {
                Some(entries[key])
            } else {
                None
            },
            _ => None,
        }
    }

    /// The element at `index`, where this is an array that long.
    pub open spec fn item(self, index: int) -> Option<JsonModel> {
        match self {
            JsonModel::List(items) => if 0 <= index < items.len() {
                Some(items[index])
            } else {
                None
            },
            _ => None,
        }
    }

    /// The characters of this value, where it is a string.
    pub open spec fn text(self) -> Option<Seq<char>> {
        match self {
            JsonModel::Text(chars) => Some(chars),
            _ => None,
        }
    }

    /// This object with `key` set to `value`; anything but an object is left
    /// as it is.
    pub open spec fn with_member(self, key: Seq<char>, value: JsonModel) -> JsonModel {
        match self {
            JsonModel::Object(entries) => JsonModel::Object(entries.insert(key, value)),
            other => other,
        }
    }

    /// The string stored under `key`, where this is an object that holds a
    /// string there.
    pub open spec fn text_member(self, key: Seq<char>) -> Option<Seq<char>> {
        match self.member(key) {
            Some(found) => found.text(),
            None => None,
        }
    }
}

/// `serde_json::Value`, taken as it is: nothing inside a value is visible
/// here, and all that is known of one comes from the functions below.
#[verifier::external_type_specification]
#[verifier::external_body]
pub struct ExValue(serde_json::Value);

/// What a `serde_json::Value` holds.
pub uninterp spec fn json_model(value: serde_json::Value) -> JsonModel;

/// What `serde_json::from_str` makes of a text: the value it reads, or the
/// message of the error it reports.
pub uninterp spec fn parsed_json(text: Seq<char>) -> Result<JsonModel, Seq<char>>;

/// The text `serde_json::to_string_pretty` prints for a value.
pub uninterp spec fn pretty_json(value: JsonModel) -> Seq<char>;

/// `serde_json::from_str::<Value>`: reads `text` as one JSON value. The
/// outcome depends on the text alone; an error is handed back as the message
/// it displays.
#[verifier::external_body]
pub(crate) fn parse_json(text: &str) -> (parsed: Result<serde_json::Value, String>)
    ensures
        match parsed {
            Ok(value) => parsed_json(text@) == Ok::<JsonModel, Seq<char>>(json_model(value)),
            Err(message) => parsed_json(text@) == Err::<JsonModel, Seq<char>>(message@),
        },
{
    serde_json::from_str::<serde_json::Value>(text).map_err(|error| error.to_string())
}

/// `serde_json::to_string_pretty` on a `Value`: the indented text of the
/// value. Objects are kept sorted by key, so the text depends on the content
/// alone. There always is a text: a `Value` has strings for keys, a number
/// that is not finite is written as `null`, and the printer writes into
/// memory, so none of the printer's errors can arise.
#[verifier::external_body]
pub(crate) fn to_pretty(value: &serde_json::Value) -> (text: Option<String>)
    ensures
        text is Some,
        text matches Some(printed) ==> printed@ == pretty_json(json_model(*value)),
{
    serde_json::to_string_pretty(value).ok()
}

/// `Value::get` with a string index: the member under `key` if the value is
/// an object that has it, `None` in every other case.
#[verifier::external_body]
pub(crate) fn member<'a>(value: &'a serde_json::Value, key: &str) -> (found: Option<
    &'a serde_json::Value,
>)
    ensures
        match found {
            Some(child) => json_model(*value).member(key@) == Some(json_model(*child)),
            None => json_model(*value).member(key@) is None,
        },
{
    value.get(key)
}

/// `Value::get` with a `usize` index: the element at `index` if the value is
/// an array that long, `None` in every other case.
#[verifier::external_body]
pub(crate) fn item<'a>(value: &'a serde_json::Value, index: usize) -> (found: Option<
    &'a serde_json::Value,
>)
    ensures
        match found {
            Some(child) => json_model(*value).item(index as int) == Some(json_model(*child)),
            None => json_model(*value).item(index as int) is None,
        },
{
    value.get(index)
}

/// `Value::as_str`: the string slice if the value is a string, else `None`.
#[verifier::external_body]
pub(crate) fn as_text<'a>(value: &'a serde_json::Value) -> (text: Option<&'a str>)
    ensures
        match text {
            Some(chars) => json_model(*value).text() == Some(chars@),
            None => json_model(*value).text() is None,
        },
{
    value.as_str()
}

/// The string under `key` in the object `value`, if there is one.
pub fn string_member(value: &serde_json::Value, key: &str) -> (found: Option<String>)
    ensures
        match found {
            Some(text) => json_model(*value).text_member(key@) == Some(text@),
            None => json_model(*value).text_member(key@) is None,
        },
{
    match member(value, key) {
        Some(child) => match as_text(child) {
            Some(text) => Some(text.to_owned()),
            None => None,
        },
        None => None,
    }
}

/// `Value::is_object`: whether the value is an object.
#[verifier::external_body]
pub(crate) fn is_object(value: &serde_json::Value) -> (object: bool)
    ensures
        object == (json_model(*value) is Object),
{
    value.is_object()
}

/// The variant `Value::String`: a string value holding `text`.
#[verifier::external_body]
pub(crate) fn string_value(text: String) -> (value: serde_json::Value)
    ensures
        json_model(value) == JsonModel::Text(text@),
{
    serde_json::Value::String(text)
}

/// The variant `Value::Array`: an array holding `items` in their order.
#[verifier::external_body]
pub(crate) fn array_value(items: Vec<serde_json::Value>) -> (value: serde_json::Value)
    ensures
        json_model(value) == JsonModel::List(items@.map_values(|item| json_model(item))),
{
    serde_json::Value::Array(items)
}

/// `Map::new` inside the variant `Value::Object`: an object without members.
#[verifier::external_body]
pub(crate) fn empty_object() -> (value: serde_json::Value)
    ensures
        json_model(value) == JsonModel::Object(Map::empty()),
{
    serde_json::Value::Object(serde_json::Map::new())
}

/// `Map::insert` on the map that `Value::as_object_mut` hands out: sets `key`
/// to `value` in an object, replacing what was stored there, and leaves every
/// other member alone. A value that is no object is not changed.
#[verifier::external_body]
pub(crate) fn object_insert(object: &mut serde_json::Value, key: String, value: serde_json::Value)
    ensures
        json_model(*final(object)) == json_model(*old(object)).with_member(
            key@,
            json_model(value),
        ),
{
    if let Some(entries) = object.as_object_mut() {
        entries.insert(key, value);
    }
}

} // verus!
