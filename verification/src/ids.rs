//! Identifiers and timestamps: UUIDs held as their 128-bit value, and UTC
//! instants held as seconds and nanoseconds since the Unix epoch.
use vstd::prelude::*;

verus! {

/// A UTC instant as seconds since the Unix epoch and the nanoseconds of the
/// second.
#[derive(Clone, Copy, Debug, PartialEq, Eq)]
pub struct UtcTimestamp {
    pub seconds: i64,
    pub nanos: u32,
}

/// What `uuid::Uuid::parse_str` accepts and reads, as the UUID's 128-bit
/// big-endian value.
pub uninterp spec fn parsed_uuid(text: Seq<char>) -> Option<u128>;

/// What `chrono::DateTime::parse_from_rfc3339` reads, converted to UTC.
pub uninterp spec fn parsed_rfc3339(text: Seq<char>) -> Option<(i64, u32)>;

/// Lower-case hexadecimal digit for `d` in `0..16`.
pub open spec fn hex_lower(d: int) -> char {
    if d < 10 {
        (('0' as int) + d) as char
    } else {
        (('a' as int) + d - 10) as char
    }
}

/// The `n` low hexadecimal digits of `v`, most significant first.
pub open spec fn hex_digits(v: nat, n: nat) -> Seq<char>
    decreases n,
{
    if n == 0 {
        Seq::empty()
    } else {
        hex_digits(v / 16, (n - 1) as nat).push(hex_lower((v % 16) as int))
    }
}

/// The hyphenated lower-case form `xxxxxxxx-xxxx-xxxx-xxxx-xxxxxxxxxxxx`
/// that `Uuid`'s `Display` writes.
pub open spec fn uuid_hyphenated(v: u128) -> Seq<char> {
    let h = hex_digits(v as nat, 32);
    h.subrange(0, 8) + seq!['-'] + h.subrange(8, 12) + seq!['-'] + h.subrange(12, 16) + seq!['-']
        + h.subrange(16, 20) + seq!['-'] + h.subrange(20, 32)
}

/// `uuid::Uuid::parse_str` followed by `Uuid::as_u128`: the value of a UUID
/// written in any form the crate accepts, or `None` where it reports an error.
#[verifier::external_body]
pub(crate) fn parse_uuid(text: &str) -> (r: Option<u128>)
    ensures
        r == parsed_uuid(text@),
{
    match uuid::Uuid::parse_str(text) {
        Ok(u) => Some(u.as_u128()),
        Err(_) => None,
    }
}

/// `Uuid::from_u128` followed by `to_string`: the hyphenated lower-case text.
#[verifier::external_body]
pub(crate) fn uuid_text(v: u128) -> (r: String)
    ensures
        r@ == uuid_hyphenated(v),
{
    uuid::Uuid::from_u128(v).to_string()
}

/// `chrono::DateTime::parse_from_rfc3339` followed by conversion to UTC, as
/// Unix seconds and nanoseconds, or `None` where chrono reports an error.
#[verifier::external_body]
pub(crate) fn parse_rfc3339(text: &str) -> (r: Option<UtcTimestamp>)
    ensures
        match r {
            Some(t) => parsed_rfc3339(text@) == Some((t.seconds, t.nanos)),
            None => parsed_rfc3339(text@) is None,
        },
{
    match chrono::DateTime::parse_from_rfc3339(text) {
        Ok(d) => Some(UtcTimestamp { seconds: d.timestamp(), nanos: d.timestamp_subsec_nanos() }),
        Err(_) => None,
    }
}

/// The text with which `uuid::Uuid::parse_str` reports that it cannot read
/// `text` (its error's `Display`).
pub uninterp spec fn uuid_error_text(text: Seq<char>) -> Seq<char>;

/// The text with which `chrono::DateTime::parse_from_rfc3339` reports that
/// it cannot read `text` (its error's `Display`).
pub uninterp spec fn rfc3339_error_text(text: Seq<char>) -> Seq<char>;

/// `uuid::Uuid::parse_str`, as the UUID's value, or the error's text.
#[verifier::external_body]
pub(crate) fn parse_uuid_reporting(text: &str) -> (r: Result<u128, String>)
    ensures
        match r {
            Ok(u) => parsed_uuid(text@) == Some(u),
            Err(m) => parsed_uuid(text@) is None && m@ == uuid_error_text(text@),
        },
{
    match uuid::Uuid::parse_str(text) {
        Ok(u) => Ok(u.as_u128()),
        Err(e) => Err(e.to_string()),
    }
}

/// `chrono::DateTime::parse_from_rfc3339` converted to UTC, or the error's
/// text.
#[verifier::external_body]
pub(crate) fn parse_rfc3339_reporting(text: &str) -> (r: Result<UtcTimestamp, String>)
    ensures
        match r {
            Ok(t) => parsed_rfc3339(text@) == Some((t.seconds, t.nanos)),
            Err(m) => parsed_rfc3339(text@) is None && m@ == rfc3339_error_text(text@),
        },
{
    match chrono::DateTime::parse_from_rfc3339(text) {
        Ok(d) => Ok(UtcTimestamp { seconds: d.timestamp(), nanos: d.timestamp_subsec_nanos() }),
        Err(e) => Err(e.to_string()),
    }
}

/// `chrono::Utc::now()` as Unix seconds and nanoseconds: the current time.
/// It depends on the clock, so nothing is stated of it.
#[verifier::external_body]
pub(crate) fn now_utc() -> (r: UtcTimestamp) {
    let now = chrono::Utc::now();
    UtcTimestamp { seconds: now.timestamp(), nanos: now.timestamp_subsec_nanos() }
}

} // verus!
