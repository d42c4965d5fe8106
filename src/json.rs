//! The JSON operations that the library takes from serde_json.

use vstd::prelude::*;

verus! {

/// The string found in the JSON document `body` at the JSON pointer
/// `pointer`, when `body` parses and a string stands there.
pub uninterp spec fn json_text_at(body: Seq<char>, pointer: Seq<char>) -> Option<Seq<char>>;

/// The JSON string literal (quotes and escapes included) that denotes `s`.
pub uninterp spec fn json_quoted(s: Seq<char>) -> Seq<char>;

/// The view of an optional owned string.
pub open spec fn opt_text(o: Option<String>) -> Option<Seq<char>> {
    match o {
        Some(t) => Some(t@),
        None => None,
    }
}

/// Relies on serde_json::from_str into serde_json::Value, then
/// Value::pointer and Value::as_str: the string at a JSON pointer of a
/// parsed document, which depends on the two texts alone.
#[verifier::external_body]
pub(crate) fn text_at_pointer(body: &str, pointer: &str) -> (r: Option<String>)
    ensures
        opt_text(r) == json_text_at(body@, pointer@),
{
    let v: serde_json::Value = match serde_json::from_str(body) {
        Ok(v) => v,
        Err(_) => return None,
    };
    match v.pointer(pointer) {
        Some(x) => x.as_str().map(String::from),
        None => None,
    }
}

/// Relies on the Display of serde_json::Value for Value::String: the JSON
/// string literal for `s`, which depends on `s` alone.
#[verifier::external_body]
pub(crate) fn quote(s: &str) -> (r: String)
    ensures
        r@ == json_quoted(s@),
{
    serde_json::Value::String(s.to_string()).to_string()
}

} // verus!
