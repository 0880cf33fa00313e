//! The HTTP surface's own decisions: reading ids from paths and queries,
//! resolving a timeline's anchor, checking a truth request, and mapping the
//! operator workbench's errors to HTTP answers.
use vstd::prelude::*;
use crate::billing::{api_error_is, ApiError, BAD_REQUEST};
use crate::ids::{parse_uuid, parsed_uuid};
use crate::names::{parse_record_kind, record_kind_named, normalized_name, RecordKind};
use crate::text::{concat2, concat3, concat5, owned, trim, trim_str};

verus! {

/// The health check's answer.
#[derive(Debug, Clone)]
pub struct HealthPayload {
    pub status: &'static str,
}

/// The health check's answer: `ok`.
pub fn health_payload() -> (r: HealthPayload)
    ensures
        r.status@ == "ok"@,
{
    HealthPayload { status: "ok" }
}

/// `{field} must be a valid UUID`.
pub open spec fn invalid_uuid_field(field: Seq<char>) -> Seq<char> {
    field + " must be a valid UUID"@
}

/// The UUID in a path or query value, trimmed; `400` naming the field
/// where it is not one.
pub fn parse_uuid_field(value: &str, field: &str) -> (r: Result<u128, ApiError>)
    ensures
        match parsed_uuid(trim(value@)) {
            Some(u) => r matches Ok(v) && v == u,
            None => r matches Err(e) && api_error_is(e, BAD_REQUEST, invalid_uuid_field(field@)),
        },
{
    match parse_uuid(trim_str(value)) {
        Some(u) => Ok(u),
        None => Err(ApiError { status: BAD_REQUEST, message: concat2(field, " must be a valid UUID") }),
    }
}

/// The record a timeline is anchored on: the organization where one is
/// named; otherwise the anchor kind and id, both required.
pub fn timeline_anchor(
    organization_id: Option<&str>,
    anchor_kind: Option<&str>,
    anchor_id: Option<&str>,
) -> (r: Result<(RecordKind, u128), ApiError>)
    ensures
        match organization_id {
            Some(o) => match parsed_uuid(trim(o@)) {
                Some(u) => r matches Ok(a) && a == (RecordKind::Organization, u),
                None => r matches Err(e) && api_error_is(e, BAD_REQUEST, invalid_uuid_field("organization_id"@)),
            },
            None => match anchor_kind {
                None => r matches Err(e) && api_error_is(e, BAD_REQUEST, "anchor_kind is required"@),
                Some(k) => match anchor_id {
                    None => r matches Err(e) && api_error_is(e, BAD_REQUEST, "anchor_id is required"@),
                    Some(i) => match record_kind_named(normalized_name(k@)) {
                        None => r matches Err(e) && api_error_is(e, BAD_REQUEST, "unsupported record kind: "@ + k@),
                        Some(kind) => match parsed_uuid(trim(i@)) {
                            Some(u) => r matches Ok(a) && a == (kind, u),
                            None => r matches Err(e) && api_error_is(e, BAD_REQUEST, invalid_uuid_field("anchor_id"@)),
                        },
                    },
                },
            },
        },
{
    match organization_id {
        Some(o) => {
            let id = parse_uuid_field(o, "organization_id")?;
            Ok((RecordKind::Organization, id))
        },
        None => {
            let kind = match anchor_kind {
                Some(k) => k,
                None => {
                    return Err(ApiError { status: BAD_REQUEST, message: owned("anchor_kind is required") });
                },
            };
            let id = match anchor_id {
                Some(i) => i,
                None => {
                    return Err(ApiError { status: BAD_REQUEST, message: owned("anchor_id is required") });
                },
            };
            let kind = parse_record_kind(kind)?;
            let id = parse_uuid_field(id, "anchor_id")?;
            Ok((kind, id))
        },
    }
}

/// How many timeline entries an answer holds: as asked, or 50.
pub fn timeline_limit(limit: Option<usize>) -> (r: usize)
    ensures
        r == match limit {
            Some(l) => l,
            None => 50,
        },
{
    match limit {
        Some(l) => l,
        None => 50,
    }
}

/// How many timeline entries an organization summary holds: as asked, or
/// 25.
pub fn summary_timeline_limit(limit: Option<usize>) -> (r: usize)
    ensures
        r == match limit {
            Some(l) => l,
            None => 25,
        },
{
    match limit {
        Some(l) => l,
        None => 25,
    }
}

/// `404 Not Found`.
pub const NOT_FOUND: u16 = 404;

/// The truth a request names, trimmed: `400` where it names none, `404`
/// where the catalog does not know it (`known` is the catalog's answer for
/// the trimmed key).
pub fn requested_truth_key<'a>(key: &'a str, known: bool) -> (r: Result<&'a str, ApiError>)
    ensures
        trim(key@).len() == 0 ==> (r matches Err(e) && api_error_is(e, BAD_REQUEST, "truth key is required"@)),
        trim(key@).len() > 0 && !known ==> (r matches Err(e) && api_error_is(
            e,
            NOT_FOUND,
            "truth not found: "@ + trim(key@),
        )),
        trim(key@).len() > 0 && known ==> (r matches Ok(k) && k@ == trim(key@)),
{
    let k = trim_str(key);
    if k.unicode_len() == 0 {
        return Err(ApiError { status: BAD_REQUEST, message: owned("truth key is required") });
    }
    if !known {
        return Err(ApiError { status: NOT_FOUND, message: concat2("truth not found: ", k) });
    }
    Ok(k)
}

/// The errors of the operator workbench.
#[derive(Debug, Clone)]
pub enum OperatorAppError {
    /// The store failed; the HTTP answer is the storage error's.
    Storage(ApiError),
    TruthNotFound(String),
    MissingInput(String),
    InvalidUuid { field: String, value: String },
    InvalidInteger { field: String, value: String },
    Validation(String),
    UnsupportedTruth(String),
}

/// The HTTP answer to a workbench error: the storage error's own answer;
/// `404` for an unknown truth; `400` for a missing or unreadable input, a
/// failed validation, or an unsupported truth.
pub fn api_error_from_operator(error: OperatorAppError) -> (r: ApiError)
    ensures
        match error {
            OperatorAppError::Storage(e) => r == e,
            OperatorAppError::TruthNotFound(key) => api_error_is(r, NOT_FOUND, "truth not found: "@ + key@),
            OperatorAppError::MissingInput(field) => api_error_is(r, BAD_REQUEST, "missing required input: "@ + field@),
            OperatorAppError::InvalidUuid { field, value } => api_error_is(
                r,
                BAD_REQUEST,
                "invalid uuid for "@ + field@ + ": "@ + value@,
            ),
            OperatorAppError::InvalidInteger { field, value } => api_error_is(
                r,
                BAD_REQUEST,
                "invalid integer for "@ + field@ + ": "@ + value@,
            ),
            OperatorAppError::Validation(m) => api_error_is(r, BAD_REQUEST, m@),
            OperatorAppError::UnsupportedTruth(m) => api_error_is(r, BAD_REQUEST, m@),
        },
{
    match error {
        OperatorAppError::Storage(e) => e,
        OperatorAppError::TruthNotFound(key) => ApiError { status: NOT_FOUND, message: concat2("truth not found: ", key.as_str()) },
        OperatorAppError::MissingInput(field) => ApiError {
            status: BAD_REQUEST,
            message: concat2("missing required input: ", field.as_str()),
        },
        OperatorAppError::InvalidUuid { field, value } => {
            let head = concat3("invalid uuid for ", field.as_str(), ": ");
            ApiError { status: BAD_REQUEST, message: concat2(head.as_str(), value.as_str()) }
        },
        OperatorAppError::InvalidInteger { field, value } => {
            let head = concat3("invalid integer for ", field.as_str(), ": ");
            ApiError { status: BAD_REQUEST, message: concat2(head.as_str(), value.as_str()) }
        },
        OperatorAppError::Validation(m) => ApiError { status: BAD_REQUEST, message: m },
        OperatorAppError::UnsupportedTruth(m) => ApiError { status: BAD_REQUEST, message: m },
    }
}

} // verus!
