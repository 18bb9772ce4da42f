//! Reading values out of JSON text and quoting strings for it, by way of
//! serde_json.
use vstd::prelude::*;

verus! {

/// The integer that JSON text `doc` holds at JSON pointer `pointer`, when the
/// text parses, the pointer leads to a value, and that value is an integer in
/// the range of `i64`.
pub uninterp spec fn json_int_at(doc: Seq<char>, pointer: Seq<char>) -> Option<i64>;

/// The string that JSON text `doc` holds at JSON pointer `pointer`, when the
/// text parses and the pointer leads to a string.
pub uninterp spec fn json_text_at(doc: Seq<char>, pointer: Seq<char>) -> Option<Seq<char>>;

/// Whether JSON text `doc` parses and holds a value other than `null` at
/// JSON pointer `pointer`.
pub uninterp spec fn json_present_at(doc: Seq<char>, pointer: Seq<char>) -> bool;

/// The JSON string literal for `s`, quotes and escapes included.
pub uninterp spec fn json_quoted(s: Seq<char>) -> Seq<char>;

/// Relies on `serde_json::from_str::<Value>`, `Value::pointer` and
/// `Value::as_i64`: the integer at a pointer, which depends on the two
/// strings alone.
#[verifier::external_body]
pub(crate) fn int_at(doc: &str, pointer: &str) -> (r: Option<i64>)
    ensures
        r == json_int_at(doc@, pointer@),
{
    match serde_json::from_str::<serde_json::Value>(doc) {
        Ok(v) => match v.pointer(pointer) {
            Some(x) => x.as_i64(),
            None => None,
        },
        Err(_) => None,
    }
}

/// Relies on `serde_json::from_str::<Value>`, `Value::pointer` and
/// `Value::as_str`: the string at a pointer, which depends on the two
/// strings alone.
#[verifier::external_body]
pub(crate) fn text_at(doc: &str, pointer: &str) -> (r: Option<String>)
    ensures
        r matches Some(t) ==> json_text_at(doc@, pointer@) == Some(t@),
        r is None ==> json_text_at(doc@, pointer@) is None,
{
    match serde_json::from_str::<serde_json::Value>(doc) {
        Ok(v) => match v.pointer(pointer) {
            Some(x) => match x.as_str() {
                Some(t) => Some(t.to_string()),
                None => None,
            },
            None => None,
        },
        Err(_) => None,
    }
}

/// Relies on `serde_json::from_str::<Value>`, `Value::pointer` and
/// `Value::is_null`: whether a non-null value stands at a pointer, which
/// depends on the two strings alone.
#[verifier::external_body]
pub(crate) fn present_at(doc: &str, pointer: &str) -> (r: bool)
    ensures
        r == json_present_at(doc@, pointer@),
{
    match serde_json::from_str::<serde_json::Value>(doc) {
        Ok(v) => match v.pointer(pointer) {
            Some(x) => !x.is_null(),
            None => false,
        },
        Err(_) => false,
    }
}

/// Relies on `serde_json::to_string` on a `str`: the quoted, escaped JSON
/// string, which depends on the text alone (serialising a `str` does not
/// fail).
#[verifier::external_body]
pub(crate) fn quoted(s: &str) -> (r: String)
    ensures
        r@ == json_quoted(s@),
{
    match serde_json::to_string(s) {
        Ok(t) => t,
        Err(_) => String::new(),
    }
}

} // verus!
