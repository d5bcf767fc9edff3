use vstd::prelude::*;

verus! {

/// serde_json's JSON value, carried through unopened.
#[verifier::external_type_specification]
#[verifier::external_body]
pub struct ExValue(serde_json::Value);

/// serde_json's parse error, carried through unopened.
#[verifier::external_type_specification]
#[verifier::external_body]
pub struct ExError(serde_json::Error);

/// The value that serde_json reads from a text, or `None` where the text is
/// no JSON document.
pub uninterp spec fn parsed_json(text: Seq<char>) -> Option<serde_json::Value>;

/// Relies on serde_json::from_str: the text is read as one JSON document, and
/// the outcome depends on the text alone.
#[verifier::external_body]
pub(crate) fn parse_json(text: &str) -> (r: Result<serde_json::Value, serde_json::Error>)
    ensures
        match r {
            Ok(v) => parsed_json(text@) == Some(v),
            Err(_) => parsed_json(text@) is None,
        },
{
    serde_json::from_str::<serde_json::Value>(text)
}

/// The JSON string value that holds a text.
pub uninterp spec fn string_json(text: Seq<char>) -> serde_json::Value;

/// Relies on the constructor serde_json::Value::String: the value holds the
/// text and nothing else.
#[verifier::external_body]
pub(crate) fn string_value(text: String) -> (r: serde_json::Value)
    ensures
        r == string_json(text@),
{
    serde_json::Value::String(text)
}

} // verus!
