//! The file format: a preferences record as JSON text, and back.

use vstd::prelude::*;
use vstd::string::StringExecFns;
use crate::error::{map_json_err, StoreError, StoreErrorView};
use crate::json::{escaped, escaped_char, json_reading, json_string, member_text, parse_json, quote_json, value_members, Members};
use crate::record::{Preferences, PreferencesView};

verus! {

/// Key of the model's name in the file.
pub const MODEL_KEY: &'static str = "model";

/// Key of the prompt in the file.
pub const PROMPT_KEY: &'static str = "prompt";

/// Key of the credential in the file.
pub const API_KEY_KEY: &'static str = "apiKey";

/// The file's text around three JSON strings: an object of three members on
/// a line each, indented by two spaces, with no line break after the closing
/// brace.
pub open spec fn framed(model: Seq<char>, prompt: Seq<char>, api_key: Seq<char>) -> Seq<char> {
    "{\n  \"model\": "@ + model + ",\n  \"prompt\": "@ + prompt + ",\n  \"apiKey\": "@ + api_key
        + "\n}"@
}

/// The text that a record is stored as.
pub open spec fn record_text(record: PreferencesView) -> Seq<char> {
    framed(json_string(record.model), json_string(record.prompt), json_string(record.api_key))
}

/// The frame names its three members by the keys under which [`record_of`]
/// looks for them, each written as a JSON string.
pub proof fn frame_names_the_keys_read(model: Seq<char>, prompt: Seq<char>, api_key: Seq<char>)
    ensures
        framed(model, prompt, api_key) == "{\n  "@ + json_string(MODEL_KEY@) + ": "@ + model
            + ",\n  "@ + json_string(PROMPT_KEY@) + ": "@ + prompt + ",\n  "@ + json_string(
            API_KEY_KEY@,
        ) + ": "@ + api_key + "\n}"@,
{
    reveal_strlit("model");
    reveal_strlit("prompt");
    reveal_strlit("apiKey");
    reveal_strlit("{\n  ");
    reveal_strlit(": ");
    reveal_strlit(",\n  ");
    reveal_strlit("{\n  \"model\": ");
    reveal_strlit(",\n  \"prompt\": ");
    reveal_strlit(",\n  \"apiKey\": ");
    plain_text_is_escaped_as_itself(MODEL_KEY@);
    plain_text_is_escaped_as_itself(PROMPT_KEY@);
    plain_text_is_escaped_as_itself(API_KEY_KEY@);
    assert("{\n  "@ + json_string(MODEL_KEY@) + ": "@ =~= "{\n  \"model\": "@);
    assert(",\n  "@ + json_string(PROMPT_KEY@) + ": "@ =~= ",\n  \"prompt\": "@);
    assert(",\n  "@ + json_string(API_KEY_KEY@) + ": "@ =~= ",\n  \"apiKey\": "@);
    let head = "{\n  \"model\": "@ + model;
    assert("{\n  "@ + json_string(MODEL_KEY@) + ": "@ + model =~= head);
    let second = head + ",\n  \"prompt\": "@ + prompt;
    assert(head + ",\n  "@ + json_string(PROMPT_KEY@) + ": "@ + prompt =~= second);
    assert(second + ",\n  "@ + json_string(API_KEY_KEY@) + ": "@ + api_key =~= second
        + ",\n  \"apiKey\": "@ + api_key);
}

/// A text without quote, backslash and control characters is escaped as
/// itself.
proof fn plain_text_is_escaped_as_itself(text: Seq<char>)
    requires
        forall|i: int| 0 <= i < text.len() ==> escaped_char(#[trigger] text[i]) == seq![text[i]],
    ensures
        escaped(text) == text,
    decreases text.len(),
{
    if text.len() > 0 {
        plain_text_is_escaped_as_itself(text.drop_first());
        assert(escaped(text) =~= seq![text.first()] + text.drop_first());
        assert(seq![text.first()] + text.drop_first() =~= text);
    }
}

/// Puts three JSON strings into the file's frame.
pub fn frame_record(model: &str, prompt: &str, api_key: &str) -> (text: String)
    ensures
        text@ == framed(model@, prompt@, api_key@),
{
    let mut text = String::from_str("{\n  \"model\": ");
    text.append(model);
    text.append(",\n  \"prompt\": ");
    text.append(prompt);
    text.append(",\n  \"apiKey\": ");
    text.append(api_key);
    text.append("\n}");
    text
}

/// Writes a record as the text of the preferences file.
///
/// Each field is turned into a JSON string by the JSON writer, which does
/// not fail on a text. So every record is written, as exactly
/// [`record_text`], and no record gives a [`StoreError::Serialization`].
pub fn encode_preferences(preferences: &Preferences) -> (r: Result<String, StoreError>)
    ensures
        r matches Ok(text) && text@ == record_text(preferences@),
{
    let model = match quote_json(preferences.model.as_str()) {
        Ok(literal) => literal,
        Err(error) => { return Err(StoreError::Serialization(map_json_err(error))); },
    };
    let prompt = match quote_json(preferences.prompt.as_str()) {
        Ok(literal) => literal,
        Err(error) => { return Err(StoreError::Serialization(map_json_err(error))); },
    };
    let api_key = match quote_json(preferences.api_key.as_str()) {
        Ok(literal) => literal,
        Err(error) => { return Err(StoreError::Serialization(map_json_err(error))); },
    };
    Ok(frame_record(model.as_str(), prompt.as_str(), api_key.as_str()))
}

/// The message for a document that has no member of the given key.
pub open spec fn missing_field(key: Seq<char>) -> Seq<char> {
    "missing field `"@ + key + "`"@
}

/// The message for a document whose member of the given key is not a JSON
/// string.
pub open spec fn field_not_text(key: Seq<char>) -> Seq<char> {
    "field `"@ + key + "` is not a string"@
}

/// The text of one field among a document's members, or why there is none.
pub open spec fn field_of(members: Members, key: Seq<char>) -> Result<Seq<char>, StoreErrorView> {
    if !members.contains_key(key) {
        Err(StoreErrorView::Parse(missing_field(key)))
    } else {
        match members[key] {
            Some(text) => Ok(text),
            None => Err(StoreErrorView::Parse(field_not_text(key))),
        }
    }
}

/// The record that a document's members hold: all three fields, or the
/// failure of the first field, in the order model, prompt, credential, that
/// is missing or not a string. Other members are passed over.
pub open spec fn record_of(members: Members) -> Result<PreferencesView, StoreErrorView> {
    match field_of(members, MODEL_KEY@) {
        Err(error) => Err(error),
        Ok(model) => match field_of(members, PROMPT_KEY@) {
            Err(error) => Err(error),
            Ok(prompt) => match field_of(members, API_KEY_KEY@) {
                Err(error) => Err(error),
                Ok(api_key) => Ok(PreferencesView { model, prompt, api_key }),
            },
        },
    }
}

/// What reading a file's text gives: a parse failure with the parser's
/// message for a text that is not JSON, else the record among the members of
/// the document.
pub open spec fn decoding(text: Seq<char>) -> Result<PreferencesView, StoreErrorView> {
    match json_reading(text) {
        Err(message) => Err(StoreErrorView::Parse(message)),
        Ok(members) => record_of(members),
    }
}

/// Whether an outcome is the expected one, values taken by their views.
pub open spec fn agrees<T: View, E: View>(outcome: Result<T, E>, expected: Result<T::V, E::V>) -> bool {
    match outcome {
        Ok(value) => expected == Ok::<T::V, E::V>(value@),
        Err(error) => expected == Err::<T::V, E::V>(error@),
    }
}

/// Reads one field of a parsed document.
fn read_field(document: &serde_json::Value, key: &str) -> (r: Result<String, StoreError>)
    ensures
        agrees(r, field_of(value_members(*document), key@)),
{
    match member_text(document, key) {
        None => {
            let mut message = String::from_str("missing field `");
            message.append(key);
            message.append("`");
            Err(StoreError::Parse(message))
        },
        Some(None) => {
            let mut message = String::from_str("field `");
            message.append(key);
            message.append("` is not a string");
            Err(StoreError::Parse(message))
        },
        Some(Some(text)) => Ok(text),
    }
}

/// Takes the record out of a parsed document.
///
/// Succeeds exactly where the document is an object whose members `model`,
/// `prompt` and `apiKey` are all JSON strings; never with fewer fields.
pub fn record_from_document(document: &serde_json::Value) -> (r: Result<Preferences, StoreError>)
    ensures
        agrees(r, record_of(value_members(*document))),
{
    let model = match read_field(document, MODEL_KEY) {
        Ok(text) => text,
        Err(error) => { return Err(error); },
    };
    let prompt = match read_field(document, PROMPT_KEY) {
        Ok(text) => text,
        Err(error) => { return Err(error); },
    };
    let api_key = match read_field(document, API_KEY_KEY) {
        Ok(text) => text,
        Err(error) => { return Err(error); },
    };
    Ok(Preferences { model, prompt, api_key })
}

/// Reads the text of the preferences file.
///
/// A text that the JSON parser refuses is a [`StoreError::Parse`] with the
/// parser's message. Any other text gives what [`record_of`] finds among the
/// members of the parsed document.
pub fn decode_preferences(text: &str) -> (r: Result<Preferences, StoreError>)
    ensures
        agrees(r, decoding(text@)),
{
    match parse_json(text) {
        Err(error) => Err(StoreError::Parse(map_json_err(error))),
        Ok(document) => record_from_document(&document),
    }
}

} // verus!
