//! JSON handling through `serde_json`.
//!
//! The parser and the printer are not verified. A parsed document is handled
//! as an opaque value, and contracts speak of the strings it holds: a map
//! from JSON pointer to the string found there.

use vstd::prelude::*;

verus! {

#[verifier::external_type_specification]
#[verifier::external_body]
pub struct ExJsonValue(serde_json::Value);

#[verifier::external_type_specification]
#[verifier::external_body]
pub struct ExJsonError(serde_json::Error);

/// The strings of a document: each JSON pointer that leads to a string value,
/// with that string.
pub uninterp spec fn json_strings(doc: serde_json::Value) -> Map<Seq<char>, Seq<char>>;

/// The strings of the document that `text` spells, or `None` where `text` is
/// not one JSON document.
pub uninterp spec fn parsed_json(text: Seq<char>) -> Option<Map<Seq<char>, Seq<char>>>;

/// `text` as a JSON string literal, quoted and escaped.
pub uninterp spec fn json_quoted(text: Seq<char>) -> Seq<char>;

/// Calls `serde_json::from_str`. Trusted: the call succeeds exactly on the
/// texts that `parsed_json` accepts, and the document it returns holds the
/// strings that `parsed_json` names.
#[verifier::external_body]
pub(crate) fn parse_json(text: &str) -> (parsed: Result<serde_json::Value, serde_json::Error>)
    ensures
        match parsed {
            Ok(doc) => parsed_json(text@) == Some(json_strings(doc)),
            Err(_) => parsed_json(text@) is None,
        },
{
    serde_json::from_str::<serde_json::Value>(text)
}

/// Calls `Value::pointer` and then `Value::as_str`. Trusted: the result is the
/// string that the document holds at `pointer`, and `None` where the pointer
/// leads nowhere or to a value that is no string.
#[verifier::external_body]
pub(crate) fn json_str_at(doc: &serde_json::Value, pointer: &str) -> (found: Option<String>)
    ensures
        match found {
            Some(s) => json_strings(*doc).contains_key(pointer@) && json_strings(*doc)[pointer@]
                == s@,
            None => !json_strings(*doc).contains_key(pointer@),
        },
{
    doc.pointer(pointer).and_then(|v| v.as_str()).map(|s| s.to_owned())
}

/// The message of a `serde_json::Error`, as its `Display` prints it. Nothing
/// is claimed about the text.
#[verifier::external_body]
pub(crate) fn json_error_text(error: &serde_json::Error) -> String {
    error.to_string()
}

/// Prints `text` as a JSON string, the way `serde_json` prints a
/// `Value::String`. Trusted: the result is `json_quoted` of the text.
#[verifier::external_body]
pub(crate) fn json_quote(text: &str) -> (quoted: String)
    ensures
        quoted@ == json_quoted(text@),
{
    serde_json::Value::String(text.to_owned()).to_string()
}

/// The string at `pointer` in a document given by its strings.
pub open spec fn string_at(doc: Map<Seq<char>, Seq<char>>, pointer: Seq<char>) -> Option<
    Seq<char>,
> {
    if doc.contains_key(pointer) {
        Some(doc[pointer])
    } else {
        None
    }
}

/// The view of an optional string.
pub open spec fn opt_text(s: Option<String>) -> Option<Seq<char>> {
    match s {
        Some(s) => Some(s@),
        None => None,
    }
}

/// Looks up the string at `pointer`.
pub fn lookup(doc: &serde_json::Value, pointer: &str) -> (found: Option<String>)
    ensures
        opt_text(found) == string_at(json_strings(*doc), pointer@),
{
    json_str_at(doc, pointer)
}

} // verus!
