//! The configuration store: one JSON object in a file, holding the API key
//! under a fixed name.
//!
//! The functions here work on the file's content. The caller reads the file
//! before and writes it after; a file that is missing or cannot be read is
//! handed in as `None`.
//!
//! Writing merges: the members already in the file stay, and only the one
//! that is set changes. A file that holds anything but a JSON object counts
//! as holding no members at all.

use crate::failure::{Failure, FailureView};
use crate::json::{
    empty_object, is_object, json_model, object_insert, parse_json, parsed_json, pretty_json,
    string_member, string_value, to_pretty, JsonModel,
};
use crate::text::{slice_view, text_view};
use vstd::prelude::*;

verus! {

/// The directory of the tool below the per-user configuration directory.
pub const APP_DIR: &'static str = "tt";

/// The name of the configuration file in that directory.
pub const FILE_NAME: &'static str = "config.json";

/// The name under which the API key is stored.
pub const OPENAI_API_KEY: &'static str = "openai_api_key";

/// The value a document configures under `key`: the member of that name if
/// the document is an object and the member a string that is not empty.
pub open spec fn configured_value(document: JsonModel, key: Seq<char>) -> Option<Seq<char>> {
    match document.text_member(key) {
        Some(text) => if text.len() > 0 {
            Some(text)
        } else {
            None
        },
        None => None,
    }
}

/// The value a configuration file configures under `key`. No file, a file
/// that is not JSON, and a file without such a value all configure nothing.
pub open spec fn stored_value(content: Option<Seq<char>>, key: Seq<char>) -> Option<Seq<char>> {
    match content {
        None => None,
        Some(text) => match parsed_json(text) {
            Ok(document) => configured_value(document, key),
            Err(_) => None,
        },
    }
}

/// Looks `key` up in a parsed configuration document.
pub fn lookup(document: &serde_json::Value, key: &str) -> (value: Option<String>)
    ensures
        match value {
            Some(text) => configured_value(json_model(*document), key@) == Some(text@),
            None => configured_value(json_model(*document), key@) is None,
        },
{
    match string_member(document, key) {
        Some(text) => if text.as_str().is_empty() {
            None
        } else {
            Some(text)
        },
        None => None,
    }
}

/// Reads the value configured under `key` from the content of the
/// configuration file.
///
/// There is no failure: whatever is wrong with the file, the answer is that
/// nothing is configured.
pub fn get(content: Option<&str>, key: &str) -> (value: Option<String>)
    ensures
        match value {
            Some(text) => stored_value(slice_view(content), key@) == Some(text@),
            None => stored_value(slice_view(content), key@) is None,
        },
        content is None ==> value is None,
        content matches Some(text) && parsed_json(text@) is Err ==> value is None,
        content matches Some(text) && parsed_json(text@) matches Ok(document)
            && document.member(key@) is None ==> value is None,
        value matches Some(text) ==> text@.len() > 0,
{
    match content {
        None => None,
        Some(text) => match parse_json(text) {
            Ok(document) => lookup(&document, key),
            Err(_) => None,
        },
    }
}

/// Whether a value is configured under `key_name`, as the word shown in the
/// status report.
pub fn is_key_configured(content: Option<&str>, key_name: &str) -> (answer: String)
    ensures
        answer@ == (if stored_value(slice_view(content), key_name@) is Some {
            "Yes"@
        } else {
            "No"@
        }),
{
    match get(content, key_name) {
        Some(_) => String::from_str("Yes"),
        None => String::from_str("No"),
    }
}

/// The document that a configuration file stands for when it is about to be
/// rewritten: the object in it, or an object without members where there is
/// no file, no JSON in it, or JSON that is no object.
pub open spec fn loaded_document(content: Option<Seq<char>>) -> JsonModel {
    match content {
        None => JsonModel::Object(Map::empty()),
        Some(text) => match parsed_json(text) {
            Ok(document) => if document is Object {
                document
            } else {
                JsonModel::Object(Map::empty())
            },
            Err(_) => JsonModel::Object(Map::empty()),
        },
    }
}

/// A document with the string `value` stored under `key`.
pub open spec fn with_entry(document: JsonModel, key: Seq<char>, value: Seq<char>) -> JsonModel {
    document.with_member(key, JsonModel::Text(value))
}

/// Loads the document to rewrite from the content of the configuration file.
pub fn load(content: Option<&str>) -> (document: serde_json::Value)
    ensures
        json_model(document) == loaded_document(slice_view(content)),
        json_model(document) is Object,
{
    match content {
        None => empty_object(),
        Some(text) => match parse_json(text) {
            Ok(document) => if is_object(&document) {
                document
            } else {
                empty_object()
            },
            Err(_) => empty_object(),
        },
    }
}

/// What becomes of an attempt to print the document: the text to write, or
/// the failure to report where the printer gave none.
pub open spec fn written(printed: Option<Seq<char>>) -> Result<Seq<char>, FailureView> {
    match printed {
        Some(text) => Ok(text),
        None => Err(
            FailureView::ConfigIoFailure { cause: "the configuration could not be encoded"@ },
        ),
    }
}

/// Turns the printer's result into the result of a write.
pub fn finish_write(printed: Option<String>) -> (outcome: Result<String, Failure>)
    ensures
        match outcome {
            Ok(text) => written(text_view(printed)) == Ok::<Seq<char>, FailureView>(text@),
            Err(failure) => written(text_view(printed)) == Err::<Seq<char>, FailureView>(failure@),
        },
{
    match printed {
        Some(text) => Ok(text),
        None => Err(
            Failure::ConfigIoFailure {
                cause: String::from_str("the configuration could not be encoded"),
            },
        ),
    }
}

/// Stores `value` under `key`: computes the new content of the configuration
/// file from the old.
///
/// This always succeeds, whatever the file held: the new content is the
/// pretty-printed text of the old document with the one member set.
pub fn set(existing: Option<&str>, key: &str, value: &str) -> (outcome: Result<String, Failure>)
    ensures
        outcome is Ok,
        outcome matches Ok(text) ==> text@ == pretty_json(
            with_entry(loaded_document(slice_view(existing)), key@, value@),
        ),
{
    let mut document = load(existing);
    object_insert(&mut document, key.to_owned(), string_value(value.to_owned()));
    finish_write(to_pretty(&document))
}

/// Stores the API key: [`set`] under the name [`OPENAI_API_KEY`]. This always
/// succeeds, whatever the file held.
pub fn configure_openai(existing: Option<&str>, api_key: &str) -> (outcome: Result<
    String,
    Failure,
>)
    ensures
        outcome is Ok,
        outcome matches Ok(text) ==> text@ == pretty_json(
            with_entry(loaded_document(slice_view(existing)), OPENAI_API_KEY@, api_key@),
        ),
{
    set(existing, OPENAI_API_KEY, api_key)
}

/// A value that is stored can be read back: in the document that `set`
/// writes, `key` is configured with `value`, whatever the file held before.
/// An empty value is the exception, since an empty string configures nothing.
pub proof fn lemma_set_then_get(content: Option<Seq<char>>, key: Seq<char>, value: Seq<char>)
    requires
        value.len() > 0,
    ensures
        configured_value(with_entry(loaded_document(content), key, value), key) == Some(value),
{
}

/// Storing a value leaves what is configured under every other key as it was.
pub proof fn lemma_set_keeps_other_keys(
    content: Option<Seq<char>>,
    key: Seq<char>,
    value: Seq<char>,
    other: Seq<char>,
)
    requires
        other != key,
    ensures
        configured_value(with_entry(loaded_document(content), key, value), other)
            == configured_value(loaded_document(content), other),
{
}

/// Storing the same value twice gives the document that storing it once
/// gives, and so the same text to write.
pub proof fn lemma_set_twice_is_set_once(document: JsonModel, key: Seq<char>, value: Seq<char>)
    ensures
        with_entry(with_entry(document, key, value), key, value) == with_entry(
            document,
            key,
            value,
        ),
        pretty_json(with_entry(with_entry(document, key, value), key, value)) == pretty_json(
            with_entry(document, key, value),
        ),
{
    match document {
        JsonModel::Object(entries) => {
            let once = entries.insert(key, JsonModel::Text(value));
            assert(once.insert(key, JsonModel::Text(value)) =~= once);
        },
        _ => {},
    }
}

/// Reading after writing, on the file itself: where the parser reads the
/// written text back as the document it was printed from, [`get`] finds
/// `value` under `key` in what [`set`] wrote. An empty value is the
/// exception.
pub proof fn lemma_get_after_set(content: Option<Seq<char>>, key: Seq<char>, value: Seq<char>)
    requires
        value.len() > 0,
    ensures
        ({
            let document = with_entry(loaded_document(content), key, value);
            parsed_json(pretty_json(document)) == Ok::<JsonModel, Seq<char>>(document)
                ==> stored_value(Some(pretty_json(document)), key) == Some(value)
        }),
{
}

/// Writing after writing, on the file itself: where the parser reads the
/// written text back as the document it was printed from, storing the same
/// value once more writes the same text.
pub proof fn lemma_set_after_set(content: Option<Seq<char>>, key: Seq<char>, value: Seq<char>)
    ensures
        ({
            let document = with_entry(loaded_document(content), key, value);
            parsed_json(pretty_json(document)) == Ok::<JsonModel, Seq<char>>(document)
                ==> pretty_json(
                with_entry(loaded_document(Some(pretty_json(document))), key, value),
            ) == pretty_json(document)
        }),
{
    let document = with_entry(loaded_document(content), key, value);
    lemma_set_twice_is_set_once(loaded_document(content), key, value);
}

} // verus!
