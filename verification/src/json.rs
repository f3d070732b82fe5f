//! Structured-data documents, read and written by `serde_json`.
use vstd::prelude::*;

verus! {

/// A parsed document. What it holds is known to `serde_json` alone.
#[verifier::external_type_specification]
#[verifier::external_body]
pub struct ExValue(serde_json::Value);

/// The document that a text denotes, if it denotes one.
pub uninterp spec fn json_document(text: Seq<char>) -> Option<serde_json::Value>;

/// A document written out over several lines, each level indented, if it
/// can be written.
pub uninterp spec fn json_indented(document: serde_json::Value) -> Option<Seq<char>>;

/// A text as it is written again after being read: the indented form of
/// the document it denotes.
pub open spec fn json_reindented(text: Seq<char>) -> Option<Seq<char>> {
    match json_document(text) {
        Some(document) => json_indented(document),
        None => None,
    }
}

/// Calls `serde_json::from_str` for a `serde_json::Value`. The contract
/// claims that the outcome depends on the text alone: whether the text is
/// a document, and which one.
#[verifier::external_body]
pub(crate) fn parse_document(text: &str) -> (parsed: Option<serde_json::Value>)
    ensures
        parsed == json_document(text@),
{
    match serde_json::from_str::<serde_json::Value>(text) {
        Ok(document) => Some(document),
        Err(_) => None,
    }
}

/// Calls `serde_json::to_string_pretty`. The contract claims that the
/// outcome depends on the document alone: whether it can be written, and
/// the text that comes out.
#[verifier::external_body]
pub(crate) fn indent_document(document: &serde_json::Value) -> (written: Option<String>)
    ensures
        match written {
            Some(text) => json_indented(*document) == Some(text@),
            None => json_indented(*document) is None,
        },
{
    match serde_json::to_string_pretty(document) {
        Ok(text) => Some(text),
        Err(_) => None,
    }
}

/// Reads a text as a document and writes the document out again, indented.
pub fn reindent(text: &str) -> (written: Option<String>)
    ensures
        match written {
            Some(indented) => json_reindented(text@) == Some(indented@),
            None => json_reindented(text@) is None,
        },
{
    match parse_document(text) {
        Some(document) => indent_document(&document),
        None => None,
    }
}

} // verus!
