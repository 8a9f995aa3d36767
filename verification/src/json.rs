//! JSON documents of job and process variables.
use vstd::prelude::*;

verus! {

/// What `serde_json::from_str::<serde_json::Value>` makes of `text`: the
/// document it reads, or `None` where `text` is not one JSON document.
/// Parsing depends on the text alone.
pub uninterp spec fn parsed_json(text: Seq<char>) -> Option<serde_json::Value>;

/// The empty JSON object: the document that the text `{}` reads as.
pub open spec fn empty_document() -> serde_json::Value {
    parsed_json(seq!['{', '}']).unwrap()
}

/// The document a variables text reads as, or the empty object where the
/// text is not a JSON document.
pub open spec fn document_or_empty_of(text: Seq<char>) -> serde_json::Value {
    match parsed_json(text) {
        Some(v) => v,
        None => empty_document(),
    }
}

/// Parses a JSON document with `serde_json::from_str::<serde_json::Value>`;
/// the result is the name `parsed_json` of the text.
#[verifier::external_body]
pub(crate) fn parse_json(text: &str) -> (r: Option<serde_json::Value>)
    ensures
        r == parsed_json(text@),
{
    serde_json::from_str::<serde_json::Value>(text).ok()
}

/// The empty JSON object `{}` (what `serde_json::json!({})` builds):
/// `Value::Object` of an empty `Map`, which is also what `serde_json::from_str`
/// reads from the text `{}`.
#[verifier::external_body]
pub(crate) fn empty_json_object() -> (r: serde_json::Value)
    ensures
        parsed_json(seq!['{', '}']) == Some(r),
{
    serde_json::Value::Object(serde_json::Map::new())
}

/// The parsed document, or the empty object when parsing failed.
pub fn document_or_empty(parsed: Option<serde_json::Value>) -> (r: serde_json::Value)
    ensures
        r == (match parsed {
            Some(v) => v,
            None => empty_document(),
        }),
{
    match parsed {
        Some(v) => v,
        None => empty_json_object(),
    }
}

/// The compact JSON text of an optional variables document, the empty text
/// when there is none: what every request carries in its `variables` field.
pub open spec fn variables_text(variables: Option<serde_json::Value>, text: String) -> bool {
    match variables {
        Some(v) => vstd::string::to_string_from_display_ensures::<serde_json::Value>(&v, text),
        None => text@ == Seq::<char>::empty(),
    }
}

/// Serializes optional variables: `to_string` of the value, or the empty
/// string.
pub fn variables_to_text(variables: &Option<serde_json::Value>) -> (r: String)
    ensures
        variables_text(*variables, r),
{
    match variables {
        Some(v) => v.to_string(),
        None => String::new(),
    }
}

} // verus!
