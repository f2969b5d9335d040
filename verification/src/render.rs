//! How JSON values become the contents of files, through serde_json.

use crate::text::join2;
use vstd::prelude::*;

verus! {

/// A JSON value of serde_json, carried unread.
#[verifier::external_type_specification]
#[verifier::external_body]
pub struct ExValue(serde_json::Value);

/// What serde_json's `Display` of a value writes: the value on one line.
pub uninterp spec fn compact_json(value: serde_json::Value) -> Seq<char>;

/// What serde_json's `to_string_pretty` makes of a value: its indented text, or nothing where it
/// cannot be written.
pub uninterp spec fn pretty_json(value: serde_json::Value) -> Option<Seq<char>>;

/// `to_string` by the `Display` of serde_json's `Value`. The text depends on the value alone; its
/// layout is not stated.
#[verifier::external_body]
fn compact_text(value: &serde_json::Value) -> (text: String)
    ensures
        text@ == compact_json(*value),
{
    value.to_string()
}

/// `to_string_pretty` of serde_json. The text depends on the value alone; its layout, and when
/// there is none, are not stated.
#[verifier::external_body]
fn pretty_text(value: &serde_json::Value) -> (text: Option<String>)
    ensures
        crate::text::option_view(text) == pretty_json(*value),
{
    serde_json::to_string_pretty(value).ok()
}

/// A text as a line of its own.
pub fn as_line(text: &str) -> (line: String)
    ensures
        line@ == text@ + "\n"@,
{
    join2(text, "\n")
}

/// The line that an event takes in the event log.
pub fn event_line(event: &serde_json::Value) -> (line: String)
    ensures
        line@ == compact_json(*event) + "\n"@,
{
    as_line(compact_text(event).as_str())
}

/// The contents of a document's file, or nothing where the document cannot be written.
pub fn document_contents(document: &serde_json::Value) -> (contents: Option<String>)
    ensures
        crate::text::option_view(contents) == match pretty_json(*document) {
            Some(text) => Some(text + "\n"@),
            None => None,
        },
{
    match pretty_text(document) {
        Some(text) => Some(as_line(text.as_str())),
        None => None,
    }
}

} // verus!
