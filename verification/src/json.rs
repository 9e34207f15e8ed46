//! Trusted boundary to serde_json.
//!
//! The dispatcher must decide whether a stored payload still decodes into a
//! structured body, and the reconciler reads the server-assigned identifier
//! out of a confirmed response.  Both are pure functions of the text, so
//! their results are given names here and everything downstream is verified
//! against those names.

use vstd::prelude::*;

verus! {

/// Whether this text is one well-formed JSON document, exactly as
/// `serde_json::from_str::<Value>` accepts it.
pub uninterp spec fn json_decodes(s: Seq<char>) -> bool;

/// The in-range integer found under this top-level key of the JSON document,
/// if the text is a well-formed JSON object that has the key and the value
/// there is such an integer; `None` otherwise.
pub uninterp spec fn json_field_i64(s: Seq<char>, key: Seq<char>) -> Option<i64>;

/// Relies on `serde_json::from_str::<Value>`: it returns `Ok` exactly on
/// well-formed JSON text, and its outcome is a function of the text alone.
#[verifier::external_body]
pub fn json_is_valid(s: &str) -> (r: bool)
    ensures
        r == json_decodes(s@),
{
    serde_json::from_str::<serde_json::Value>(s).is_ok()
}

/// Relies on `serde_json::from_str::<Value>`, `Value::get` and
/// `Value::as_i64`: chained, they return the in-range integer under a
/// top-level key and `None` in every other case, as a function of the text
/// and the key alone.
#[verifier::external_body]
pub fn json_get_i64(s: &str, key: &str) -> (r: Option<i64>)
    ensures
        r == json_field_i64(s@, key@),
{
    match serde_json::from_str::<serde_json::Value>(s) {
        Ok(v) => match v.get(key) {
            Some(x) => x.as_i64(),
            None => None,
        },
        Err(_) => None,
    }
}

} // verus!
