//! Trusted boundary to the JSON parser.
//!
//! Inbound traffic is one JSON document per line. The protocol logic never
//! walks a parsed document itself: it asks these three queries, each a pure
//! function of the line text and a JSON-pointer path, and every contract
//! upstream is stated over the three names below.

use vstd::prelude::*;

verus! {

/// The string found in the JSON document `line` at pointer `path`, if `line`
/// parses and `path` leads to a string value.
pub uninterp spec fn json_str_at(line: Seq<char>, path: Seq<char>) -> Option<Seq<char>>;

/// The unsigned integer found in the JSON document `line` at pointer `path`,
/// if `line` parses and `path` leads to a number representable as `u64`.
pub uninterp spec fn json_u64_at(line: Seq<char>, path: Seq<char>) -> Option<u64>;

/// The value found in the JSON document `line` at pointer `path`, rendered
/// back as compact JSON text, if `line` parses and `path` leads to a value.
pub uninterp spec fn json_raw_at(line: Seq<char>, path: Seq<char>) -> Option<Seq<char>>;

/// Relies on `serde_json::from_str`, `Value::pointer` and `Value::as_str`:
/// parsing and pointer lookup are deterministic in the two strings.
#[verifier::external_body]
pub fn str_at(line: &str, path: &str) -> (r: Option<String>)
    ensures
        r is Some <==> json_str_at(line@, path@) is Some,
        r matches Some(s) ==> json_str_at(line@, path@) == Some(s@),
{
    match serde_json::from_str::<serde_json::Value>(line) {
        Ok(v) => match v.pointer(path) {
            Some(x) => match x.as_str() {
                Some(s) => Some(s.to_string()),
                None => None,
            },
            None => None,
        },
        Err(_) => None,
    }
}

/// Relies on `serde_json::from_str`, `Value::pointer` and `Value::as_u64`:
/// parsing and pointer lookup are deterministic in the two strings.
#[verifier::external_body]
pub fn u64_at(line: &str, path: &str) -> (r: Option<u64>)
    ensures
        r == json_u64_at(line@, path@),
{
    match serde_json::from_str::<serde_json::Value>(line) {
        Ok(v) => match v.pointer(path) {
            Some(x) => x.as_u64(),
            None => None,
        },
        Err(_) => None,
    }
}

/// Relies on `serde_json::from_str`, `Value::pointer` and
/// `serde_json::to_string`: with the default map representation the rendered
/// text is deterministic in the two strings.
#[verifier::external_body]
pub fn raw_at(line: &str, path: &str) -> (r: Option<String>)
    ensures
        r is Some <==> json_raw_at(line@, path@) is Some,
        r matches Some(s) ==> json_raw_at(line@, path@) == Some(s@),
{
    match serde_json::from_str::<serde_json::Value>(line) {
        Ok(v) => match v.pointer(path) {
            Some(x) => match serde_json::to_string(x) {
                Ok(s) => Some(s),
                Err(_) => None,
            },
            None => None,
        },
        Err(_) => None,
    }
}

} // verus!
