//! Reading a truth's string inputs: required and optional text, UUIDs,
//! instants, integers and booleans, with the runtime status that reports a
//! missing or unreadable input.
use std::collections::HashMap;
use vstd::prelude::*;
use crate::contracts::{optional_bool_value, present_bool};
use crate::ids::{parse_rfc3339_reporting, parse_uuid_reporting, parsed_rfc3339, parsed_uuid, rfc3339_error_text, uuid_error_text, UtcTimestamp};
use crate::inputs::{input_get, input_model, present, present_value};
use crate::runtime::{Status, StatusCode};
use crate::text::{concat2, concat3, opt_text, parse_i64, parse_i64_text, trim_str};

verus! {

/// An `InvalidArgument` status with `message`.
pub open spec fn invalid_argument(s: Status, message: Seq<char>) -> bool {
    s.code == StatusCode::InvalidArgument && s.message@ == message
}

/// `missing required input: {key}`.
pub open spec fn missing_input_message(key: Seq<char>) -> Seq<char> {
    "missing required input: "@ + key
}

/// `invalid uuid for {key}: {error}`.
pub open spec fn invalid_uuid_message(key: Seq<char>, text: Seq<char>) -> Seq<char> {
    "invalid uuid for "@ + key + ": "@ + uuid_error_text(text)
}

/// `invalid RFC3339 datetime for {key}: {error}`.
pub open spec fn invalid_datetime_message(key: Seq<char>, text: Seq<char>) -> Seq<char> {
    "invalid RFC3339 datetime for "@ + key + ": "@ + rfc3339_error_text(text)
}

/// The trimmed, non-blank text under `key`; `InvalidArgument` when it is
/// absent or blank.
pub fn required_input<'a>(inputs: &'a HashMap<String, String>, key: &str) -> (r: Result<&'a str, Status>)
    ensures
        match present(input_model(*inputs), key@) {
            Some(t) => r matches Ok(v) && v@ == t,
            None => r matches Err(s) && invalid_argument(s, missing_input_message(key@)),
        },
{
    match input_get(inputs, key) {
        Some(v) => {
            let t = trim_str(v.as_str());
            if t.unicode_len() == 0 {
                Err(Status { code: StatusCode::InvalidArgument, message: concat2("missing required input: ", key) })
            } else {
                Ok(t)
            }
        },
        None => Err(Status { code: StatusCode::InvalidArgument, message: concat2("missing required input: ", key) }),
    }
}

/// The trimmed, non-blank text under `key`, if any.
pub fn optional_input(inputs: &HashMap<String, String>, key: &str) -> (r: Option<String>)
    ensures
        opt_text(r) == present(input_model(*inputs), key@),
{
    present_value(inputs, key)
}

/// What reading a UUID out of present text gives.
pub open spec fn uuid_outcome(key: Seq<char>, text: Seq<char>, r: Result<u128, Status>) -> bool {
    match parsed_uuid(text) {
        Some(u) => r == Ok::<u128, Status>(u),
        None => r matches Err(s) && invalid_argument(s, invalid_uuid_message(key, text)),
    }
}

fn uuid_of(key: &str, text: &str) -> (r: Result<u128, Status>)
    ensures
        uuid_outcome(key@, text@, r),
{
    match parse_uuid_reporting(text) {
        Ok(u) => Ok(u),
        Err(m) => {
            let head = concat3("invalid uuid for ", key, ": ");
            Err(Status { code: StatusCode::InvalidArgument, message: concat2(head.as_str(), m.as_str()) })
        },
    }
}

/// The UUID under `key`: `InvalidArgument` when absent or blank, or when the
/// text is not a UUID (with the parser's explanation).
pub fn required_uuid(inputs: &HashMap<String, String>, key: &str) -> (r: Result<u128, Status>)
    ensures
        match present(input_model(*inputs), key@) {
            Some(t) => uuid_outcome(key@, t, r),
            None => r matches Err(s) && invalid_argument(s, missing_input_message(key@)),
        },
{
    let v = required_input(inputs, key)?;
    uuid_of(key, v)
}

/// The UUID under `key` when present; `InvalidArgument` when present but not
/// a UUID.
pub fn optional_uuid(inputs: &HashMap<String, String>, key: &str) -> (r: Result<Option<u128>, Status>)
    ensures
        match present(input_model(*inputs), key@) {
            Some(t) => match parsed_uuid(t) {
                Some(u) => r == Ok::<Option<u128>, Status>(Some(u)),
                None => r matches Err(s) && invalid_argument(s, invalid_uuid_message(key@, t)),
            },
            None => r == Ok::<Option<u128>, Status>(None),
        },
{
    match optional_input(inputs, key) {
        Some(v) => match uuid_of(key, v.as_str()) {
            Ok(u) => Ok(Some(u)),
            Err(e) => Err(e),
        },
        None => Ok(None),
    }
}

/// The instant under `key`, converted to UTC: `InvalidArgument` when absent
/// or blank, or when the text is not RFC 3339 (with the parser's
/// explanation).
pub fn required_datetime(inputs: &HashMap<String, String>, key: &str) -> (r: Result<UtcTimestamp, Status>)
    ensures
        match present(input_model(*inputs), key@) {
            Some(t) => match parsed_rfc3339(t) {
                Some(p) => r matches Ok(v) && (v.seconds, v.nanos) == p,
                None => r matches Err(s) && invalid_argument(s, invalid_datetime_message(key@, t)),
            },
            None => r matches Err(s) && invalid_argument(s, missing_input_message(key@)),
        },
{
    let v = required_input(inputs, key)?;
    match parse_rfc3339_reporting(v) {
        Ok(t) => Ok(t),
        Err(m) => {
            let head = concat3("invalid RFC3339 datetime for ", key, ": ");
            Err(Status { code: StatusCode::InvalidArgument, message: concat2(head.as_str(), m.as_str()) })
        },
    }
}

/// The integer under `key`, read from present text.
pub open spec fn present_i64(m: Map<Seq<char>, Seq<char>>, k: Seq<char>) -> Option<int> {
    match present(m, k) {
        Some(t) => parse_i64(t),
        None => None,
    }
}

/// The integer under `key` when present and readable as an `i64`.
pub fn optional_i64(inputs: &HashMap<String, String>, key: &str) -> (r: Option<i64>)
    ensures
        match r {
            Some(v) => present_i64(input_model(*inputs), key@) == Some(v as int),
            None => present_i64(input_model(*inputs), key@) is None,
        },
{
    match optional_input(inputs, key) {
        Some(v) => parse_i64_text(v.as_str()),
        None => None,
    }
}

/// The boolean under `key` when present and written as `true`/`1`/`yes` or
/// `false`/`0`/`no`, in any case.
pub fn optional_bool(inputs: &HashMap<String, String>, key: &str) -> (r: Option<bool>)
    ensures
        r == present_bool(input_model(*inputs), key@),
{
    optional_bool_value(inputs, key)
}

} // verus!
