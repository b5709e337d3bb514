//! Trusted bridges to the JSON and base64 crates.
//!
//! Each function here makes exactly one logical call into an outside crate.
//! The result of each call depends on the arguments alone, so the contracts
//! name the results with uninterpreted spec functions; everything the rest of
//! the library states is exact up to those names.

use vstd::prelude::*;
use base64::Engine;

verus! {

/// The JSON text of a string: surrounding quotes, with the characters that
/// JSON requires escaped.
pub uninterp spec fn json_quoted(s: Seq<char>) -> Seq<char>;

/// Relies on serde_json::to_string on a string slice: the produced JSON text
/// depends on the characters alone, and serializing a string slice cannot
/// fail (only maps with non-string keys and failing Serialize impls can).
#[verifier::external_body]
pub(crate) fn json_quote(s: &str) -> (r: String)
    ensures
        r@ == json_quoted(s@),
{
    serde_json::to_string(s).unwrap()
}

/// The string value under `key` in the JSON document `body`: `Some` exactly
/// when `body` parses as JSON, carries `key`, and maps it to a string.
pub uninterp spec fn str_field_of(body: Seq<char>, key: Seq<char>) -> Option<Seq<char>>;

/// Relies on serde_json::from_str, Value::get and Value::as_str: whether a
/// text parses, holds the key, and maps it to a string — and to which one —
/// depends on the text and the key alone (with a repeated key, the last
/// occurrence wins).
#[verifier::external_body]
pub fn json_str_field(body: &str, key: &str) -> (r: Option<String>)
    ensures
        match r {
            Some(s) => str_field_of(body@, key@) == Some(s@),
            None => str_field_of(body@, key@) is None,
        },
{
    match serde_json::from_str::<serde_json::Value>(body) {
        Ok(v) => match v.get(key) {
            Some(f) => f.as_str().map(|s| s.to_owned()),
            None => None,
        },
        Err(_) => None,
    }
}

/// The canonical JSON text of a JSON array: `Some` exactly when the input
/// parses as a JSON array.
pub uninterp spec fn array_normalized(s: Seq<char>) -> Option<Seq<char>>;

/// Relies on serde_json::from_str into a vector of values and
/// serde_json::to_string: whether a text parses as a JSON array, and the
/// canonical text of that array, depend on the text alone.
#[verifier::external_body]
pub(crate) fn json_array_normalize(s: &str) -> (r: Option<String>)
    ensures
        match r {
            Some(t) => array_normalized(s@) == Some(t@),
            None => array_normalized(s@) is None,
        },
{
    match serde_json::from_str::<Vec<serde_json::Value>>(s) {
        Ok(v) => serde_json::to_string(&v).ok(),
        Err(_) => None,
    }
}

/// The canonical JSON text of an array of strings: `Some` exactly when the
/// input parses as a JSON array whose elements are all strings.
pub uninterp spec fn str_array_normalized(s: Seq<char>) -> Option<Seq<char>>;

/// Relies on serde_json::from_str into a vector of strings and
/// serde_json::to_string: whether a text parses as an array of strings, and
/// the canonical text of that array, depend on the text alone.
#[verifier::external_body]
pub(crate) fn json_str_array_normalize(s: &str) -> (r: Option<String>)
    ensures
        match r {
            Some(t) => str_array_normalized(s@) == Some(t@),
            None => str_array_normalized(s@) is None,
        },
{
    match serde_json::from_str::<Vec<String>>(s) {
        Ok(v) => serde_json::to_string(&v).ok(),
        Err(_) => None,
    }
}

/// The padded standard base64 encoding of a byte sequence.
pub uninterp spec fn base64_of(bytes: Seq<u8>) -> Seq<char>;

/// Relies on base64's general_purpose::STANDARD engine: the encoding depends
/// on the input bytes alone, and the padded output holds four characters for
/// each started group of three input bytes. Encoding panics when that output
/// length overflows usize, so the input is bounded here.
#[verifier::external_body]
pub(crate) fn base64_encode(bytes: &[u8]) -> (r: String)
    requires
        (bytes@.len() + 2) / 3 * 4 <= usize::MAX as nat,
    ensures
        r@ == base64_of(bytes@),
        r@.len() == (bytes@.len() + 2) / 3 * 4,
{
    base64::engine::general_purpose::STANDARD.encode(bytes)
}

} // verus!
