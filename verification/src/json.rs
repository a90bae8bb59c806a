//! Whether a stored text column holds a JSON document.

use vstd::prelude::*;

verus! {

/// What a text reads as: not JSON, the JSON `null`, or another JSON value.
#[derive(Debug, Clone, Copy, PartialEq, Eq, Structural)]
pub enum JsonReading {
    Invalid,
    Null,
    Value,
}

/// What `serde_json::from_str::<serde_json::Value>` reads this text as.
pub uninterp spec fn json_reading(s: Seq<char>) -> JsonReading;

/// Whether the text is one JSON document, with nothing but white space
/// after it.
pub open spec fn json_parses(s: Seq<char>) -> bool {
    !(json_reading(s) is Invalid)
}

/// Calls `serde_json::from_str::<serde_json::Value>` and says whether it
/// failed, gave `Value::Null` or gave another value. Claims only that the
/// answer is a function of the text; which texts are JSON is not stated.
#[verifier::external_body]
pub(crate) fn read_json(s: &str) -> (r: JsonReading)
    ensures
        r == json_reading(s@),
{
    match serde_json::from_str::<serde_json::Value>(s) {
        Ok(serde_json::Value::Null) => JsonReading::Null,
        Ok(_) => JsonReading::Value,
        Err(_) => JsonReading::Invalid,
    }
}

/// Whether the text is JSON.
pub(crate) fn is_json(s: &str) -> (r: bool)
    ensures
        r == json_parses(s@),
{
    match read_json(s) {
        JsonReading::Invalid => false,
        _ => true,
    }
}

/// Whether an optional JSON column is acceptable, given whether its text
/// parses: NULL always is.
pub open spec fn column_ok(present: bool, parses: bool) -> bool {
    present ==> parses
}

/// Whether an optional JSON column parses (true when NULL).
pub open spec fn json_column_ok(col: Option<String>) -> bool {
    match col {
        Some(s) => json_parses(s@),
        None => true,
    }
}

} // verus!
