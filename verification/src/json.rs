//! The boundary to `serde_json`: what the store asks of it, and what it
//! takes on trust about the answers.
//!
//! Nothing in this file is proved. Each item says which function of
//! `serde_json` it stands for and what it claims of it.

use vstd::prelude::*;
use vstd::string::to_string_from_display_ensures;

verus! {

/// `serde_json::Value`, a parsed JSON document. The store never looks inside
/// one but through [`member_text`].
#[verifier::external_type_specification]
#[verifier::external_body]
pub struct ExJsonValue(serde_json::Value);

/// `serde_json::Error`, carried from the parser or the writer to
/// [`crate::error::map_json_err`].
#[verifier::external_type_specification]
#[verifier::external_body]
pub struct ExJsonError(serde_json::Error);

/// The members of a top-level JSON object, by key: `Some(text)` for a member
/// whose value is a JSON string, `None` for a member of any other kind.
pub type Members = Map<Seq<char>, Option<Seq<char>>>;

/// What `serde_json::from_str::<serde_json::Value>` makes of a text: the
/// message of the error that it reports, or else the members of the document
/// that it returns (no members where the document is not an object).
pub uninterp spec fn json_reading(text: Seq<char>) -> Result<Members, Seq<char>>;

/// The members that a parsed document holds (none where it is not an object).
pub uninterp spec fn value_members(document: serde_json::Value) -> Members;

/// The two characters `\` and `c`.
pub open spec fn short_escape(c: char) -> Seq<char> {
    seq!['\\', c]
}

/// The lower-case hexadecimal digit of a number below 16.
pub open spec fn hex_digit(n: int) -> char {
    seq!['0', '1', '2', '3', '4', '5', '6', '7', '8', '9', 'a', 'b', 'c', 'd', 'e', 'f'][n]
}

/// How one character stands inside a JSON string: the quote, the backslash
/// and the characters below U+0020 are escaped, every other character stands
/// for itself.
pub open spec fn escaped_char(c: char) -> Seq<char> {
    if c == '"' {
        short_escape('"')
    } else if c == '\\' {
        short_escape('\\')
    } else if c == '\u{08}' {
        short_escape('b')
    } else if c == '\t' {
        short_escape('t')
    } else if c == '\n' {
        short_escape('n')
    } else if c == '\u{0c}' {
        short_escape('f')
    } else if c == '\r' {
        short_escape('r')
    } else if (c as u32) < 0x20 {
        seq!['\\', 'u', '0', '0', hex_digit((c as u32) as int / 16), hex_digit((c as u32) as int % 16)]
    } else {
        seq![c]
    }
}

/// The characters of a text, each as it stands inside a JSON string.
pub open spec fn escaped(text: Seq<char>) -> Seq<char>
    decreases text.len(),
{
    if text.len() == 0 {
        Seq::<char>::empty()
    } else {
        escaped_char(text.first()) + escaped(text.drop_first())
    }
}

/// A text as a JSON string: its escaped characters between two quotes.
pub open spec fn json_string(text: Seq<char>) -> Seq<char> {
    seq!['"'] + escaped(text) + seq!['"']
}

/// Calls `serde_json::from_str::<serde_json::Value>`.
///
/// Claims that the outcome is a function of the text alone, named
/// [`json_reading`]: either a document whose members are the ones it names,
/// or an error for which `Display` writes the message it names.
#[verifier::external_body]
pub(crate) fn parse_json(text: &str) -> (r: Result<serde_json::Value, serde_json::Error>)
    ensures
        r matches Ok(document) ==> (json_reading(text@) matches Ok(members) && members
            == value_members(document)),
        r matches Err(error) ==> (json_reading(text@) matches Err(message) && forall|shown: String|
            #[trigger] to_string_from_display_ensures::<serde_json::Error>(&error, shown)
                ==> shown@ == message),
{
    serde_json::from_str::<serde_json::Value>(text)
}

/// Calls `serde_json::Value::get` with a string key and, on the member found,
/// `serde_json::Value::as_str`.
///
/// Claims what their documentation says: `get` finds a member exactly where
/// the document is an object that has the key, and `as_str` gives the text
/// exactly where the member is a JSON string.
#[verifier::external_body]
pub(crate) fn member_text(document: &serde_json::Value, key: &str) -> (r: Option<Option<String>>)
    ensures
        r is Some <==> value_members(*document).contains_key(key@),
        r matches Some(found) ==> (match found {
            Some(text) => value_members(*document)[key@] == Some(text@),
            None => value_members(*document)[key@] is None,
        }),
{
    document.get(key).map(|member| member.as_str().map(String::from))
}

/// Calls `serde_json::to_string` on a `str`.
///
/// Claims that it succeeds, and that the text it returns is the JSON string
/// of the argument, as [`json_string`] spells it out. It succeeds because
/// writing a `str` fails only where the writer fails, and the writer here is
/// a `Vec<u8>` in memory, whose writes never fail.
#[verifier::external_body]
pub(crate) fn quote_json(text: &str) -> (r: Result<String, serde_json::Error>)
    ensures
        r is Ok,
        r matches Ok(literal) ==> literal@ == json_string(text@),
{
    serde_json::to_string(text)
}

} // verus!
