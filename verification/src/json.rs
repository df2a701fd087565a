//! The JSON-field extraction path: parse a response as JSON, read the
//! `result` member, and decode the hex quantity it carries.
//!
//! Parsing is done by `serde_json`; what it returns for a given text is
//! named by uninterpreted spec functions, and everything downstream of the
//! parse is verified against those names.

use vstd::prelude::*;
use crate::decode::{hex_decode_result, hex_to_decimal};
use crate::error::RpcError;

verus! {

#[verifier::external_type_specification]
#[verifier::external_body]
pub struct ExValue(serde_json::Value);

/// Whether `s` is a well-formed JSON document.
pub uninterp spec fn json_well_formed(s: Seq<char>) -> bool;

/// The `result` member of the document parsed from `s`, when that member is
/// a JSON string; meaningful only when `s` is well-formed.
pub uninterp spec fn json_result_str(s: Seq<char>) -> Option<Seq<char>>;

/// The `number` member of the `result` object of the document parsed from
/// `s`, when `result` is an object and `number` a JSON string; meaningful
/// only when `s` is well-formed.
pub uninterp spec fn json_result_number_str(s: Seq<char>) -> Option<Seq<char>>;

/// The `result` member of `v`, when it is a JSON string.
pub uninterp spec fn value_result_str(v: serde_json::Value) -> Option<Seq<char>>;

/// The `number` member of the `result` object of `v`, when `result` is an
/// object and `number` a JSON string.
pub uninterp spec fn value_result_number_str(v: serde_json::Value) -> Option<Seq<char>>;

/// Relies on `serde_json::from_str::<Value>`: it returns `Ok` exactly for
/// well-formed JSON text, and what it parses depends on the text alone.
#[verifier::external_body]
fn parse_json(rx: &str) -> (r: Option<serde_json::Value>)
    ensures
        (r is Some) == json_well_formed(rx@),
        r matches Some(v) ==> (value_result_str(v) == json_result_str(rx@)
            && value_result_number_str(v) == json_result_number_str(rx@)),
{
    serde_json::from_str::<serde_json::Value>(rx).ok()
}

/// Relies on `serde_json::Value::get` and `Value::as_str`: `get("result")`
/// returns the `result` member of an object, and `as_str` returns the
/// borrowed text exactly when that member is a JSON string.
#[verifier::external_body]
fn get_result_str(v: &serde_json::Value) -> (r: Option<String>)
    ensures
        r matches Some(s) ==> value_result_str(*v) == Some(s@),
        r is None ==> value_result_str(*v) is None,
{
    match v.get("result") {
        Some(x) => x.as_str().map(|s| s.to_owned()),
        None => None,
    }
}

/// Relies on `serde_json::Value::get` and `Value::as_str`: two member
/// lookups reach the `number` member of the `result` object, and `as_str`
/// returns its text exactly when it is a JSON string.
#[verifier::external_body]
fn get_result_number_str(v: &serde_json::Value) -> (r: Option<String>)
    ensures
        r matches Some(s) ==> value_result_number_str(*v) == Some(s@),
        r is None ==> value_result_number_str(*v) is None,
{
    match v.get("result").and_then(|x| x.get("number")) {
        Some(y) => y.as_str().map(|s| s.to_owned()),
        None => None,
    }
}

/// The hex string the JSON-field path extracts from `s`: the `result`
/// member itself when it is a string, else the `number` member of the
/// `result` object.
pub open spec fn json_result_hex(s: Seq<char>) -> Option<Seq<char>> {
    if json_result_str(s) is Some {
        json_result_str(s)
    } else {
        json_result_number_str(s)
    }
}

/// What `extract_number` returns on response text `s`.
pub open spec fn extract_number_result(s: Seq<char>) -> Result<u64, RpcError> {
    if !json_well_formed(s) {
        Err(RpcError::Malformed)
    } else if json_result_hex(s) is None {
        Err(RpcError::InvalidResponse)
    } else {
        hex_decode_result(json_result_hex(s)->Some_0)
    }
}

/// Extract the block number from an `eth_getBlockByNumber` response: parse
/// the text as JSON (`Malformed` if it does not parse), read the `result`
/// member — either a bare hex string, or an object whose `number` member
/// holds the hex string (`InvalidResponse` if neither shape is present) —
/// and convert the hex quantity.
pub fn extract_number(rx: &str) -> (r: Result<u64, RpcError>)
    ensures
        r == extract_number_result(rx@),
{
    let v = match parse_json(rx) {
        Some(v) => v,
        None => {
            return Err(RpcError::Malformed);
        },
    };
    let hex = match get_result_str(&v) {
        Some(h) => h,
        None => {
            match get_result_number_str(&v) {
                Some(h) => h,
                None => {
                    return Err(RpcError::InvalidResponse);
                },
            }
        },
    };
    hex_to_decimal(hex.as_str())
}

} // verus!
