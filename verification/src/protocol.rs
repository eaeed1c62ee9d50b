//! The player's control protocol: building request payloads and reading the
//! `data` field out of a get-property response.
//!
//! Requests are JSON texts of the shape `{ "command": [...] }`; a
//! get-property response is a JSON object whose `data` field holds the
//! property's value. Malformed responses, a missing field or a value of an
//! unexpected type all degrade to "no value" rather than to an error.

use vstd::prelude::*;

verus! {

/// The request text that asks the player for a property's value.
pub open spec fn get_payload_spec(name: Seq<char>) -> Seq<char> {
    "{ \"command\": [\"get_property\", \""@ + name + "\"] }"@
}

/// The request text that sets a property to a rendered JSON value.
pub open spec fn set_payload_spec(name: Seq<char>, value: Seq<char>) -> Seq<char> {
    "{ \"command\": [\"set_property\", \""@ + name + "\", "@ + value + "] }"@
}

/// Builds the get-property request for `name`.
pub fn get_property_payload(name: &str) -> (r: String)
    ensures
        r@ == get_payload_spec(name@),
{
    let r = "{ \"command\": [\"get_property\", \"".to_owned().concat(name).concat("\"] }");
    proof {
        assert(r@ =~= get_payload_spec(name@));
    }
    r
}

/// Builds the set-property request for `name` with the rendered `value`.
pub fn set_property_payload(name: &str, value: &str) -> (r: String)
    ensures
        r@ == set_payload_spec(name@, value@),
{
    let r = "{ \"command\": [\"set_property\", \"".to_owned().concat(name).concat("\", ").concat(
        value,
    ).concat("] }");
    proof {
        assert(r@ =~= set_payload_spec(name@, value@));
    }
    r
}

/// Whether a response text is one well-formed JSON value: what
/// serde_json::from_str accepts.
pub uninterp spec fn json_parse_ok(s: Seq<char>) -> bool;

/// The `data` field of the response text as a signed 64-bit integer, if the
/// text parses and the field holds an integral number in range.
pub uninterp spec fn data_i64_of(s: Seq<char>) -> Option<i64>;

/// The `data` field of the response text as an unsigned 64-bit integer, if
/// the text parses and the field holds an integral non-negative number in
/// range.
pub uninterp spec fn data_u64_of(s: Seq<char>) -> Option<u64>;

/// The `data` field of the response text, if the text parses and the field
/// holds a JSON boolean.
pub uninterp spec fn data_bool_of(s: Seq<char>) -> Option<bool>;

/// The `data` field of the response text as a whole count of units: a
/// numeric field truncated toward zero (saturating at the i64 range), if
/// the text parses and the field holds a JSON number.
pub uninterp spec fn data_whole_of(s: Seq<char>) -> Option<i64>;

/// Relies on serde_json::from_str::<Value>, Value::get and Value::as_i64:
/// the `data` field as a signed integer, a function of the response text
/// alone; a value comes back only from a text that parsed.
#[verifier::external_body]
fn extract_data_i64(resp: &str) -> (r: Option<i64>)
    ensures
        r == data_i64_of(resp@),
        r.is_some() ==> json_parse_ok(resp@),
{
    let v: serde_json::Value = match serde_json::from_str(resp) {
        Ok(v) => v,
        Err(_) => return None,
    };
    v.get("data").and_then(serde_json::Value::as_i64)
}

/// Relies on serde_json::from_str::<Value>, Value::get and Value::as_u64:
/// the `data` field as an unsigned integer, a function of the response text
/// alone; a value comes back only from a text that parsed.
#[verifier::external_body]
fn extract_data_u64(resp: &str) -> (r: Option<u64>)
    ensures
        r == data_u64_of(resp@),
        r.is_some() ==> json_parse_ok(resp@),
{
    let v: serde_json::Value = match serde_json::from_str(resp) {
        Ok(v) => v,
        Err(_) => return None,
    };
    v.get("data").and_then(serde_json::Value::as_u64)
}

/// Relies on serde_json::from_str::<Value>, Value::get and Value::as_bool:
/// the `data` field as a boolean, a function of the response text alone; a
/// value comes back only from a text that parsed.
#[verifier::external_body]
fn extract_data_bool(resp: &str) -> (r: Option<bool>)
    ensures
        r == data_bool_of(resp@),
        r.is_some() ==> json_parse_ok(resp@),
{
    let v: serde_json::Value = match serde_json::from_str(resp) {
        Ok(v) => v,
        Err(_) => return None,
    };
    v.get("data").and_then(serde_json::Value::as_bool)
}

/// Relies on serde_json::from_str::<Value>, Value::get and Value::as_f64:
/// the `data` field as a number truncated toward zero (the player reports
/// times and volumes as fractional counts of whole units), a function of
/// the response text alone; a value comes back only from a text that
/// parsed.
#[verifier::external_body]
fn extract_data_whole(resp: &str) -> (r: Option<i64>)
    ensures
        r == data_whole_of(resp@),
        r.is_some() ==> json_parse_ok(resp@),
{
    let v: serde_json::Value = match serde_json::from_str(resp) {
        Ok(v) => v,
        Err(_) => return None,
    };
    v.get("data").and_then(serde_json::Value::as_f64).map(|f| f as i64)
}

/// The `data` field of a response, as a signed integer. A malformed
/// response yields no value and never a failure.
pub fn response_data_i64(resp: &str) -> (r: Option<i64>)
    ensures
        r == data_i64_of(resp@),
        r.is_some() ==> json_parse_ok(resp@),
{
    extract_data_i64(resp)
}

/// The `data` field of a response, as an unsigned integer. A malformed
/// response yields no value and never a failure.
pub fn response_data_u64(resp: &str) -> (r: Option<u64>)
    ensures
        r == data_u64_of(resp@),
        r.is_some() ==> json_parse_ok(resp@),
{
    extract_data_u64(resp)
}

/// The `data` field of a response, as a boolean. A malformed response
/// yields no value and never a failure.
pub fn response_data_bool(resp: &str) -> (r: Option<bool>)
    ensures
        r == data_bool_of(resp@),
        r.is_some() ==> json_parse_ok(resp@),
{
    extract_data_bool(resp)
}

/// The `data` field of a response as a whole number of units (a numeric
/// field truncated toward zero). A malformed response yields no value and
/// never a failure.
pub fn response_data_whole(resp: &str) -> (r: Option<i64>)
    ensures
        r == data_whole_of(resp@),
        r.is_some() ==> json_parse_ok(resp@),
{
    extract_data_whole(resp)
}

} // verus!
