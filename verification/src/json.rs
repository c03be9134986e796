//! Parsing the JSON text of a Python value with `serde_json`.
use vstd::prelude::*;

verus! {

/// `serde_json::Value`, carried through as an opaque value.
#[verifier::external_type_specification]
#[verifier::external_body]
pub struct ExJsonValue(serde_json::Value);

/// `serde_json::Error`, carried through as an opaque value.
#[verifier::external_type_specification]
#[verifier::external_body]
pub struct ExJsonError(serde_json::Error);

/// What `serde_json::from_str::<serde_json::Value>` makes of `text`: the
/// JSON value, or `None` where it refuses the text.
pub uninterp spec fn json_parse(text: Seq<char>) -> Option<serde_json::Value>;

/// Calls `serde_json::from_str::<serde_json::Value>`. Trusted: the outcome
/// depends on the text alone (the parser has a fixed recursion limit and
/// reads nothing else), so it is the named `json_parse` of the text: the
/// value built when the text is accepted, an error when it is not. Which
/// error it reports is not stated.
#[verifier::external_body]
fn serde_json_from_str(text: &str) -> (r: Result<serde_json::Value, serde_json::Error>)
    ensures
        r is Ok <==> json_parse(text@) is Some,
        r matches Ok(v) ==> json_parse(text@) == Some(v),
{
    serde_json::from_str::<serde_json::Value>(text)
}

/// The text is not a JSON value that `serde_json` accepts.
#[derive(PartialEq, Eq, Structural, Clone, Copy, Debug)]
pub struct InvalidJson;

/// The JSON value of `text`, for an SQL result that SQLite's JSON functions
/// read as JSON; an error when `serde_json` does not accept the text.
pub fn json_value(text: &str) -> (r: Result<serde_json::Value, InvalidJson>)
    ensures
        r is Ok <==> json_parse(text@) is Some,
        r matches Ok(v) ==> json_parse(text@) == Some(v),
{
    match serde_json_from_str(text) {
        Ok(v) => Ok(v),
        Err(_) => Err(InvalidJson),
    }
}

} // verus!
