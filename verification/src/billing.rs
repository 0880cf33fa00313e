//! Billing ingress: authorizing a billing webhook, normalizing the billing
//! event into truth inputs, and answering repeated deliveries of one event
//! from the idempotency ledger.
use std::collections::HashMap;
use vstd::prelude::*;
use vstd::string::StrSliceExecFns;
use vstd::utf8::encode_utf8;
use crate::contracts::{truth_key_of, BillingEventKind};
use crate::runtime::{Actor, ActorKind, Status, StatusCode, TruthExecutionArtifacts};
use crate::pipeline::TruthOutcome;
use crate::storage::{KernelError, StorageError};
use crate::inputs::{empty_inputs, empty_map, input_entries, input_insert, input_model, lookup, map_get, map_insert, map_remove, no_inputs, text_keyed};
use crate::text::{bool_text, concat2, concat3, i64_text, int_decimal, nonblank, nonblank_text, opt_text, owned, starts_with_text, str_starts_with, trim, trim_str, u64_text};

verus! {

/// Longest text (in UTF-8 bytes) accepted for an identifier or an attribute.
pub const MAX_STRING_INPUT_LEN: usize = 4096;

/// Most attributes a billing event may carry.
pub const MAX_ATTRIBUTES_COUNT: usize = 64;

/// Length of text in UTF-8 bytes, as `str::len` reports it.
pub open spec fn byte_len(s: Seq<char>) -> int {
    (encode_utf8(s).len() as usize) as int
}

/// An HTTP error answer: its status code and message.
#[derive(Debug, Clone)]
pub struct ApiError {
    pub status: u16,
    pub message: String,
}

/// An error's status code and message text.
pub open spec fn api_error_is(e: ApiError, status: u16, message: Seq<char>) -> bool {
    e.status == status && e.message@ == message
}

pub const BAD_REQUEST: u16 = 400;
pub const UNAUTHORIZED: u16 = 401;
pub const SERVICE_UNAVAILABLE: u16 = 503;

impl ApiError {
    pub fn new(status: u16, message: String) -> (r: Self)
        ensures
            r.status == status,
            r.message == message,
    {
        ApiError { status, message }
    }
}

// ---------------------------------------------------------------- authorization

/// Byte-wise equality computed without an early exit.
pub fn constant_time_eq(a: &[u8], b: &[u8]) -> (r: bool)
    ensures
        r == (a@ == b@),
{
    if a.len() != b.len() {
        return false;
    }
    let mut acc: u8 = 0;
    let mut i: usize = 0;
    while i < a.len()
        invariant
            a.len() == b.len(),
            i <= a.len(),
            (acc == 0) == (forall|j: int| 0 <= j < i ==> a@[j] == b@[j]),
        decreases a.len() - i,
    {
        let x = a[i];
        let y = b[i];
        let next = acc | (x ^ y);
        assert((next == 0) == (acc == 0 && x == y)) by (bit_vector)
            requires
                next == acc | (x ^ y),
        ;
        acc = next;
        i = i + 1;
    }
    if acc == 0 {
        assert(a@ =~= b@);
    }
    acc == 0
}

/// The bearer token of an `Authorization` header value.
pub open spec fn bearer_token(header: Seq<char>) -> Option<Seq<char>> {
    if starts_with_text(header, "Bearer "@) {
        Some(header.subrange(7, header.len() as int))
    } else {
        None
    }
}

/// The outcome of checking a billing webhook's credentials: `None` when
/// accepted, else the status and message of the refusal.
pub open spec fn authorization_refusal(
    expected: Option<Seq<char>>,
    header: Option<Seq<char>>,
) -> Option<(u16, Seq<char>)> {
    match expected {
        None => Some(
            (
                SERVICE_UNAVAILABLE,
                "billing ingress is disabled; CRM_BILLING_INGRESS_TOKEN is not configured"@,
            ),
        ),
        Some(token) => match header {
            Some(h) if bearer_token(h) is Some => if encode_utf8(bearer_token(h).unwrap())
                == encode_utf8(token) {
                None
            } else {
                Some((UNAUTHORIZED, "invalid bearer token for billing ingress"@))
            },
            _ => Some((UNAUTHORIZED, "missing bearer token for billing ingress"@)),
        },
    }
}

/// Checks the `Authorization` header (as text, when it is visible ASCII)
/// against the configured ingress token.
pub fn authorize_billing_ingress(
    billing_ingress_token: Option<&str>,
    authorization: Option<&str>,
) -> (r: Result<(), ApiError>)
    ensures
        match authorization_refusal(
            match billing_ingress_token { Some(t) => Some(t@), None => None },
            match authorization { Some(h) => Some(h@), None => None },
        ) {
            None => r is Ok,
            Some((status, message)) => r matches Err(e) && api_error_is(e, status, message),
        },
{
    let expected = match billing_ingress_token {
        Some(t) => t,
        None => {
            return Err(
                ApiError::new(
                    SERVICE_UNAVAILABLE,
                    owned(
                        "billing ingress is disabled; CRM_BILLING_INGRESS_TOKEN is not configured",
                    ),
                ),
            );
        },
    };
    let provided = match authorization {
        Some(h) => if str_starts_with(h, "Bearer ") {
            proof {
                vstd::string::axiom_str_literal_len("Bearer ");
                reveal_strlit("Bearer ");
            }
            h.substring_char(7, h.unicode_len())
        } else {
            return Err(
                ApiError::new(UNAUTHORIZED, owned("missing bearer token for billing ingress")),
            );
        },
        None => {
            return Err(
                ApiError::new(UNAUTHORIZED, owned("missing bearer token for billing ingress")),
            );
        },
    };
    if !constant_time_eq(provided.as_bytes(), expected.as_bytes()) {
        return Err(ApiError::new(UNAUTHORIZED, owned("invalid bearer token for billing ingress")));
    }
    Ok(())
}


// ---------------------------------------------------------------- normalization

/// A billing webhook as it arrives.
#[derive(Debug, Clone)]
pub struct BillingIngressRequest {
    pub source: String,
    pub event_id: String,
    pub event_kind: BillingEventKind,
    pub idempotency_key: Option<String>,
    pub subscription_id: Option<String>,
    pub catalog_item_id: Option<String>,
    pub payment_reference: Option<String>,
    pub amount_minor: Option<i64>,
    pub opening_balance_minor: Option<i64>,
    pub currency_code: Option<String>,
    pub payment_status: Option<String>,
    pub risk_signal: Option<bool>,
    pub days_overdue: Option<i64>,
    pub grace_days: Option<i64>,
    pub strategic_account: Option<bool>,
    pub usage_burn_minor: Option<i64>,
    pub provider_settled_minor: Option<i64>,
    pub provider_reference: Option<String>,
    pub provider_name: Option<String>,
    pub provider_status: Option<String>,
    pub threshold_minor: Option<i64>,
    pub force_manual_review: Option<bool>,
    pub manual_review_reason: Option<String>,
    pub persist_projection: Option<bool>,
    pub attributes: HashMap<String, String>,
}

/// A billing webhook normalized into the inputs of the truth it executes.
#[derive(Debug, Clone)]
pub struct NormalizedBillingEvent {
    pub source: String,
    pub event_id: String,
    pub event_kind: BillingEventKind,
    pub truth_key: String,
    pub idempotency_key: String,
    pub inputs: HashMap<String, String>,
    pub persist_projection: bool,
}

/// Input text under construction, or the error that stopped it.
pub type InputsSoFar = Result<Map<Seq<char>, Seq<char>>, (u16, Seq<char>)>;

/// `{field} is required`.
pub open spec fn required_message(field: Seq<char>) -> Seq<char> {
    field + " is required"@
}

/// Stores the trimmed value, which must not be blank.
pub open spec fn put_required(acc: InputsSoFar, key: Seq<char>, value: Option<String>, field: Seq<
    char,
>) -> InputsSoFar {
    match acc {
        Err(e) => Err(e),
        Ok(m) => match nonblank(opt_text(value)) {
            Some(v) => Ok(m.insert(key, v)),
            None => Err((BAD_REQUEST, required_message(field))),
        },
    }
}

/// Stores the integer, which must be given.
pub open spec fn put_i64(acc: InputsSoFar, key: Seq<char>, value: Option<i64>, field: Seq<char>) -> InputsSoFar {
    match acc {
        Err(e) => Err(e),
        Ok(m) => match value {
            Some(v) => Ok(m.insert(key, int_decimal(v as int))),
            None => Err((BAD_REQUEST, required_message(field))),
        },
    }
}

/// Stores the text as given.
pub open spec fn put_text(acc: InputsSoFar, key: Seq<char>, value: Seq<char>) -> InputsSoFar {
    match acc {
        Err(e) => Err(e),
        Ok(m) => Ok(m.insert(key, value)),
    }
}

/// Stores the trimmed value when it is not blank and not too long.
pub open spec fn put_optional_text(acc: InputsSoFar, key: Seq<char>, value: Option<String>) -> InputsSoFar {
    match acc {
        Err(e) => Err(e),
        Ok(m) => match nonblank(opt_text(value)) {
            Some(v) => if byte_len(v) <= MAX_STRING_INPUT_LEN {
                Ok(m.insert(key, v))
            } else {
                Ok(m)
            },
            None => Ok(m),
        },
    }
}

/// Stores the integer when given.
pub open spec fn put_optional_i64(acc: InputsSoFar, key: Seq<char>, value: Option<i64>) -> InputsSoFar {
    match acc {
        Err(e) => Err(e),
        Ok(m) => match value {
            Some(v) => Ok(m.insert(key, int_decimal(v as int))),
            None => Ok(m),
        },
    }
}

/// Stores the boolean (`true`/`false`) when given.
pub open spec fn put_optional_bool(acc: InputsSoFar, key: Seq<char>, value: Option<bool>) -> InputsSoFar {
    match acc {
        Err(e) => Err(e),
        Ok(m) => match value {
            Some(v) => Ok(m.insert(key, bool_text(v))),
            None => Ok(m),
        },
    }
}

/// The text of an optional string, or `default`.
pub open spec fn text_or(value: Option<String>, default: Seq<char>) -> Seq<char> {
    match value {
        Some(s) => s@,
        None => default,
    }
}

/// The truth inputs that each event kind contributes, in the order they are
/// checked.
pub open spec fn kind_inputs(req: BillingIngressRequest, event_id: Seq<char>) -> InputsSoFar {
    let a = Ok(no_inputs());
    let a = put_required(a, "subscription_id"@, req.subscription_id, "subscription_id"@);
    match req.event_kind {
        BillingEventKind::PrepaidTopUpSettled => {
            let a = put_i64(a, "top_up_amount_minor"@, req.amount_minor, "amount_minor"@);
            let a = put_text(a, "payment_reference"@, text_or(req.payment_reference, event_id));
            let a = put_text(a, "payment_status"@, text_or(req.payment_status, "confirmed"@));
            let a = put_optional_bool(a, "risk_signal"@, req.risk_signal);
            let a = put_optional_bool(a, "force_manual_review"@, req.force_manual_review);
            put_optional_text(a, "manual_review_reason"@, req.manual_review_reason)
        },
        BillingEventKind::SubscriptionActivationRequested => {
            let a = put_optional_text(a, "catalog_item_id"@, req.catalog_item_id);
            let a = put_optional_i64(a, "opening_balance_minor"@, req.opening_balance_minor);
            let a = put_optional_text(a, "opening_balance_currency_code"@, req.currency_code);
            let a = put_optional_bool(a, "force_manual_review"@, req.force_manual_review);
            put_optional_text(a, "manual_review_reason"@, req.manual_review_reason)
        },
        BillingEventKind::SubscriptionPaymentFailed => {
            let a = put_text(a, "payment_status"@, text_or(req.payment_status, "failed"@));
            let a = put_optional_i64(a, "days_overdue"@, req.days_overdue);
            let a = put_optional_i64(a, "grace_days"@, req.grace_days);
            let a = put_optional_bool(a, "strategic_account"@, req.strategic_account);
            let a = put_optional_bool(a, "force_manual_review"@, req.force_manual_review);
            put_optional_text(a, "manual_review_reason"@, req.manual_review_reason)
        },
        BillingEventKind::LedgerReconciliationRequested => {
            let a = put_i64(a, "usage_burn_minor"@, req.usage_burn_minor, "usage_burn_minor"@);
            let a = put_i64(
                a,
                "provider_settled_minor"@,
                req.provider_settled_minor,
                "provider_settled_minor"@,
            );
            let a = put_optional_text(a, "provider_reference"@, req.provider_reference);
            let a = put_optional_text(a, "provider_name"@, req.provider_name);
            let a = put_optional_text(a, "provider_status"@, req.provider_status);
            put_optional_i64(a, "threshold_minor"@, req.threshold_minor)
        },
    }
}

/// The outcome of checking an identifier field: its trimmed text, or the
/// error for a blank or too long one.
pub open spec fn trimmed_field(value: Seq<char>, field: Seq<char>) -> Result<Seq<char>, (u16, Seq<char>)> {
    if trim(value).len() == 0 {
        Err((BAD_REQUEST, required_message(field)))
    } else if byte_len(trim(value)) > MAX_STRING_INPUT_LEN {
        Err((BAD_REQUEST, field + " exceeds maximum length of 4096"@))
    } else {
        Ok(trim(value))
    }
}

/// Whether some attribute key or value is too long.
pub open spec fn attribute_too_long(attrs: Map<Seq<char>, Seq<char>>) -> bool {
    exists|k: Seq<char>|
        #[trigger] attrs.contains_key(k) && (byte_len(k) > MAX_STRING_INPUT_LEN || byte_len(attrs[k])
            > MAX_STRING_INPUT_LEN)
}

/// Attributes are added under keys that the event itself did not fill.
pub open spec fn merge_attributes(base: Map<Seq<char>, Seq<char>>, attrs: Map<Seq<char>, Seq<char>>) -> Map<
    Seq<char>,
    Seq<char>,
> {
    attrs.union_prefer_right(base)
}

/// The normalized event a request stands for, as its source, event id,
/// idempotency key and inputs, or the status and message of the refusal.
pub open spec fn normalization(req: BillingIngressRequest) -> Result<
    (Seq<char>, Seq<char>, Seq<char>, Map<Seq<char>, Seq<char>>),
    (u16, Seq<char>),
> {
    match trimmed_field(req.source@, "source"@) {
        Err(e) => Err(e),
        Ok(source) => match trimmed_field(req.event_id@, "event_id"@) {
            Err(e) => Err(e),
            Ok(event_id) => {
                let key = match nonblank(opt_text(req.idempotency_key)) {
                    Some(k) => k,
                    None => source + ":"@ + truth_key_of(req.event_kind) + ":"@ + event_id,
                };
                match kind_inputs(req, event_id) {
                    Err(e) => Err(e),
                    Ok(base) => {
                        let attrs = input_model(req.attributes);
                        if attrs.dom().len() > MAX_ATTRIBUTES_COUNT {
                            Err(
                                (
                                    BAD_REQUEST,
                                    "attributes count "@ + int_decimal(attrs.dom().len() as int)
                                        + " exceeds maximum of 64"@,
                                ),
                            )
                        } else if attribute_too_long(attrs) {
                            Err(
                                (
                                    BAD_REQUEST,
                                    "attribute key or value exceeds maximum length of 4096"@,
                                ),
                            )
                        } else {
                            Ok((source, event_id, key, merge_attributes(base, attrs)))
                        }
                    },
                }
            },
        },
    }
}

/// A settled top-up that names no payment status is taken as confirmed,
/// and a failed subscription payment that names none as failed; a status
/// the event names is kept as given. Attributes never override it.
pub proof fn law_payment_status_defaults(req: BillingIngressRequest)
    requires
        normalization(req) is Ok,
    ensures
        req.event_kind == BillingEventKind::PrepaidTopUpSettled && req.payment_status is None
            ==> normalization(req)->Ok_0.3.contains_key("payment_status"@)
            && normalization(req)->Ok_0.3["payment_status"@] == "confirmed"@,
        req.event_kind == BillingEventKind::SubscriptionPaymentFailed && req.payment_status is None
            ==> normalization(req)->Ok_0.3.contains_key("payment_status"@)
            && normalization(req)->Ok_0.3["payment_status"@] == "failed"@,
        (req.event_kind == BillingEventKind::PrepaidTopUpSettled || req.event_kind
            == BillingEventKind::SubscriptionPaymentFailed) && req.payment_status is Some
            ==> normalization(req)->Ok_0.3.contains_key("payment_status"@)
            && normalization(req)->Ok_0.3["payment_status"@] == req.payment_status->Some_0@,
{
    let event_id = trim(req.event_id@);
    let k = "payment_status"@;
    let a1 = put_required(Ok(no_inputs()), "subscription_id"@, req.subscription_id, "subscription_id"@);
    reveal_strlit("payment_status");
    reveal_strlit("risk_signal");
    reveal_strlit("force_manual_review");
    reveal_strlit("manual_review_reason");
    reveal_strlit("days_overdue");
    reveal_strlit("grace_days");
    reveal_strlit("strategic_account");
    assert("risk_signal"@.len() != k.len());
    assert("force_manual_review"@.len() != k.len());
    assert("manual_review_reason"@.len() != k.len());
    assert("days_overdue"@.len() != k.len());
    assert("grace_days"@.len() != k.len());
    assert("strategic_account"@.len() != k.len());
    match req.event_kind {
        BillingEventKind::PrepaidTopUpSettled => {
            let a2 = put_i64(a1, "top_up_amount_minor"@, req.amount_minor, "amount_minor"@);
            let a3 = put_text(a2, "payment_reference"@, text_or(req.payment_reference, event_id));
            let a4 = put_text(a3, k, text_or(req.payment_status, "confirmed"@));
            let a5 = put_optional_bool(a4, "risk_signal"@, req.risk_signal);
            let a6 = put_optional_bool(a5, "force_manual_review"@, req.force_manual_review);
            let a7 = put_optional_text(a6, "manual_review_reason"@, req.manual_review_reason);
            assert(a7 == kind_inputs(req, event_id));
            assert(a4 is Ok);
            assert(a4->Ok_0[k] == text_or(req.payment_status, "confirmed"@));
            assert(a7->Ok_0.contains_key(k) && a7->Ok_0[k] == text_or(req.payment_status, "confirmed"@));
        },
        BillingEventKind::SubscriptionPaymentFailed => {
            let a2 = put_text(a1, k, text_or(req.payment_status, "failed"@));
            let a3 = put_optional_i64(a2, "days_overdue"@, req.days_overdue);
            let a4 = put_optional_i64(a3, "grace_days"@, req.grace_days);
            let a5 = put_optional_bool(a4, "strategic_account"@, req.strategic_account);
            let a6 = put_optional_bool(a5, "force_manual_review"@, req.force_manual_review);
            let a7 = put_optional_text(a6, "manual_review_reason"@, req.manual_review_reason);
            assert(a7 == kind_inputs(req, event_id));
            assert(a2 is Ok);
            assert(a7->Ok_0.contains_key(k) && a7->Ok_0[k] == text_or(req.payment_status, "failed"@));
        },
        _ => {},
    }
}

/// Checks an identifier field: trimmed, not blank, at most 4096 bytes.
pub fn required_trimmed<'a>(value: &'a str, field: &str) -> (r: Result<&'a str, ApiError>)
    ensures
        match trimmed_field(value@, field@) {
            Ok(t) => r matches Ok(v) && v@ == t,
            Err((status, message)) => r matches Err(e) && api_error_is(e, status, message),
        },
{
    let trimmed = trim_str(value);
    if trimmed.unicode_len() == 0 {
        Err(ApiError::new(BAD_REQUEST, concat2(field, " is required")))
    } else if trimmed.len() > MAX_STRING_INPUT_LEN {
        Err(ApiError::new(BAD_REQUEST, concat2(field, " exceeds maximum length of 4096")))
    } else {
        Ok(trimmed)
    }
}

/// Stores the trimmed value, which must not be blank.
pub fn insert_required(
    inputs: &mut HashMap<String, String>,
    key: &str,
    value: Option<&str>,
    field: &str,
) -> (r: Result<(), ApiError>)
    ensures
        ({
            let v = match value { Some(s) => Some(s@), None => None };
            match nonblank(v) {
                Some(t) => r is Ok && input_model(*final(inputs)) == input_model(*old(inputs)).insert(key@, t),
                None => r matches Err(e) && api_error_is(e, BAD_REQUEST, required_message(field@)),
            }
        }),
{
    match nonblank_text(value) {
        Some(t) => {
            input_insert(inputs, owned(key), t);
            Ok(())
        },
        None => Err(ApiError::new(BAD_REQUEST, concat2(field, " is required"))),
    }
}

/// Stores the text as given.
pub fn insert_string(inputs: &mut HashMap<String, String>, key: &str, value: &str)
    ensures
        input_model(*final(inputs)) == input_model(*old(inputs)).insert(key@, value@),
{
    input_insert(inputs, owned(key), owned(value));
}

/// Stores the trimmed value when it is not blank and at most 4096 bytes.
pub fn insert_optional_string(inputs: &mut HashMap<String, String>, key: &str, value: Option<&str>)
    ensures
        ({
            let v = match value { Some(s) => Some(s@), None => None };
            match nonblank(v) {
                Some(t) => if byte_len(t) <= MAX_STRING_INPUT_LEN {
                    input_model(*final(inputs)) == input_model(*old(inputs)).insert(key@, t)
                } else {
                    input_model(*final(inputs)) == input_model(*old(inputs))
                },
                None => input_model(*final(inputs)) == input_model(*old(inputs)),
            }
        }),
{
    match value {
        Some(v) => {
            let t = trim_str(v);
            if t.unicode_len() != 0 && t.len() <= MAX_STRING_INPUT_LEN {
                input_insert(inputs, owned(key), owned(t));
            }
        },
        None => {},
    }
}

/// Stores the integer, which must be given.
pub fn insert_i64(inputs: &mut HashMap<String, String>, key: &str, value: Option<i64>, field: &str) -> (r:
    Result<(), ApiError>)
    ensures
        match value {
            Some(v) => r is Ok && input_model(*final(inputs)) == input_model(*old(inputs)).insert(
                key@,
                int_decimal(v as int),
            ),
            None => r matches Err(e) && api_error_is(e, BAD_REQUEST, required_message(field@)),
        },
{
    match value {
        Some(v) => {
            input_insert(inputs, owned(key), i64_text(v));
            Ok(())
        },
        None => Err(ApiError::new(BAD_REQUEST, concat2(field, " is required"))),
    }
}

/// Stores the integer when given.
pub fn insert_optional_i64(inputs: &mut HashMap<String, String>, key: &str, value: Option<i64>)
    ensures
        match value {
            Some(v) => input_model(*final(inputs)) == input_model(*old(inputs)).insert(
                key@,
                int_decimal(v as int),
            ),
            None => input_model(*final(inputs)) == input_model(*old(inputs)),
        },
{
    if let Some(v) = value {
        input_insert(inputs, owned(key), i64_text(v));
    }
}

/// Stores the boolean as `true` or `false` when given.
pub fn insert_optional_bool(inputs: &mut HashMap<String, String>, key: &str, value: Option<bool>)
    ensures
        match value {
            Some(v) => input_model(*final(inputs)) == input_model(*old(inputs)).insert(
                key@,
                bool_text(v),
            ),
            None => input_model(*final(inputs)) == input_model(*old(inputs)),
        },
{
    if let Some(v) = value {
        let t = if v {
            owned("true")
        } else {
            owned("false")
        };
        proof {
            reveal_strlit("true");
            reveal_strlit("false");
            assert("true"@ =~= bool_text(true));
            assert("false"@ =~= bool_text(false));
        }
        input_insert(inputs, owned(key), t);
    }
}

fn opt_str(value: &Option<String>) -> (r: Option<&str>)
    ensures
        match r { Some(s) => Some(s@), None => None::<Seq<char>> } == opt_text(*value),
{
    match value {
        Some(s) => Some(s.as_str()),
        None => None,
    }
}


/// Fills the inputs of the truth that the event kind executes.
fn fill_kind_inputs(request: &BillingIngressRequest, event_id: &str, inputs: &mut HashMap<String, String>) -> (r: Result<(), ApiError>)
    requires
        input_model(*old(inputs)) == no_inputs(),
    ensures
        match kind_inputs(*request, event_id@) {
            Ok(m) => r is Ok && input_model(*final(inputs)) == m,
            Err((status, message)) => r matches Err(e) && api_error_is(e, status, message),
        },
{
    insert_required(inputs, "subscription_id", opt_str(&request.subscription_id), "subscription_id")?;
    match request.event_kind {
        BillingEventKind::PrepaidTopUpSettled => {
            insert_i64(inputs, "top_up_amount_minor", request.amount_minor, "amount_minor")?;
            let reference = match &request.payment_reference {
                Some(s) => s.as_str(),
                None => event_id,
            };
            insert_string(inputs, "payment_reference", reference);
            let status = match &request.payment_status {
                Some(s) => s.as_str(),
                None => "confirmed",
            };
            insert_string(inputs, "payment_status", status);
            insert_optional_bool(inputs, "risk_signal", request.risk_signal);
            insert_optional_bool(inputs, "force_manual_review", request.force_manual_review);
            insert_optional_string(inputs, "manual_review_reason", opt_str(&request.manual_review_reason));
        },
        BillingEventKind::SubscriptionActivationRequested => {
            insert_optional_string(inputs, "catalog_item_id", opt_str(&request.catalog_item_id));
            insert_optional_i64(inputs, "opening_balance_minor", request.opening_balance_minor);
            insert_optional_string(inputs, "opening_balance_currency_code", opt_str(&request.currency_code));
            insert_optional_bool(inputs, "force_manual_review", request.force_manual_review);
            insert_optional_string(inputs, "manual_review_reason", opt_str(&request.manual_review_reason));
        },
        BillingEventKind::SubscriptionPaymentFailed => {
            let status = match &request.payment_status {
                Some(s) => s.as_str(),
                None => "failed",
            };
            insert_string(inputs, "payment_status", status);
            insert_optional_i64(inputs, "days_overdue", request.days_overdue);
            insert_optional_i64(inputs, "grace_days", request.grace_days);
            insert_optional_bool(inputs, "strategic_account", request.strategic_account);
            insert_optional_bool(inputs, "force_manual_review", request.force_manual_review);
            insert_optional_string(inputs, "manual_review_reason", opt_str(&request.manual_review_reason));
        },
        BillingEventKind::LedgerReconciliationRequested => {
            insert_i64(inputs, "usage_burn_minor", request.usage_burn_minor, "usage_burn_minor")?;
            insert_i64(inputs, "provider_settled_minor", request.provider_settled_minor, "provider_settled_minor")?;
            insert_optional_string(inputs, "provider_reference", opt_str(&request.provider_reference));
            insert_optional_string(inputs, "provider_name", opt_str(&request.provider_name));
            insert_optional_string(inputs, "provider_status", opt_str(&request.provider_status));
            insert_optional_i64(inputs, "threshold_minor", request.threshold_minor);
        },
    }
    Ok(())
}

/// The attributes of the entries before `n`.
pub open spec fn entries_prefix(entries: Seq<(String, String)>, n: int) -> Map<Seq<char>, Seq<char>>
    decreases n,
{
    if n <= 0 {
        Map::empty()
    } else {
        entries_prefix(entries, n - 1).insert(entries[n - 1].0@, entries[n - 1].1@)
    }
}

proof fn lemma_entries_prefix_keys(entries: Seq<(String, String)>, n: int, k: Seq<char>)
    requires
        0 <= n <= entries.len(),
    ensures
        entries_prefix(entries, n).contains_key(k) <==> exists|i: int| 0 <= i < n && (#[trigger] entries[i]).0@ == k,
    decreases n,
{
    if n > 0 {
        lemma_entries_prefix_keys(entries, n - 1, k);
        if entries[n - 1].0@ == k {
            assert(0 <= n - 1 < n && entries[n - 1].0@ == k);
        }
        if exists|i: int| 0 <= i < n && (#[trigger] entries[i]).0@ == k {
            let i = choose|i: int| 0 <= i < n && (#[trigger] entries[i]).0@ == k;
            if i < n - 1 {
                assert(0 <= i < n - 1 && entries[i].0@ == k);
            }
        }
    }
}

proof fn lemma_entries_prefix_value(entries: Seq<(String, String)>, n: int, i: int)
    requires
        0 <= i < n <= entries.len(),
        forall|a: int, b: int| 0 <= a < entries.len() && 0 <= b < entries.len() && a != b ==> (#[trigger] entries[a]).0@ != (#[trigger] entries[b]).0@,
    ensures
        entries_prefix(entries, n).contains_key(entries[i].0@),
        entries_prefix(entries, n)[entries[i].0@] == entries[i].1@,
    decreases n,
{
    if i < n - 1 {
        lemma_entries_prefix_value(entries, n - 1, i);
        assert(entries[n - 1].0@ != entries[i].0@);
    }
}

/// Adds the attributes under keys that are still free; refuses an attribute
/// whose key or value is too long.
fn merge_attribute_entries(attributes: &HashMap<String, String>, inputs: &mut HashMap<String, String>) -> (r: Result<(), ApiError>)
    ensures
        ({
            let attrs = input_model(*attributes);
            if attribute_too_long(attrs) {
                r matches Err(e) && api_error_is(
                    e,
                    BAD_REQUEST,
                    "attribute key or value exceeds maximum length of 4096"@,
                )
            } else {
                r is Ok && input_model(*final(inputs)) == merge_attributes(input_model(*old(inputs)), attrs)
            }
        }),
{
    let entries = input_entries(attributes);
    let ghost attrs = input_model(*attributes);
    let ghost base = input_model(*inputs);
    let mut i: usize = 0;
    while i < entries.len()
        invariant
            i <= entries@.len(),
            attrs == input_model(*attributes),
            entries@.len() == attrs.dom().len(),
            forall|j: int| 0 <= j < entries@.len() ==> lookup(attrs, (#[trigger] entries@[j]).0@) == Some(entries@[j].1@),
            forall|k: Seq<char>| attrs.contains_key(k) ==> exists|j: int| 0 <= j < entries@.len() && (#[trigger] entries@[j]).0@ == k,
            forall|a: int, b: int| 0 <= a < entries@.len() && 0 <= b < entries@.len() && a != b ==> (#[trigger] entries@[a]).0@ != (#[trigger] entries@[b]).0@,
            forall|j: int| 0 <= j < i ==> byte_len((#[trigger] entries@[j]).0@) <= MAX_STRING_INPUT_LEN && byte_len(entries@[j].1@) <= MAX_STRING_INPUT_LEN,
            input_model(*inputs) == entries_prefix(entries@, i as int).union_prefer_right(base),
        decreases entries@.len() - i,
    {
        let key = &entries[i].0;
        let value = &entries[i].1;
        if key.as_str().len() > MAX_STRING_INPUT_LEN || value.as_str().len() > MAX_STRING_INPUT_LEN {
            proof {
                assert(attrs.contains_key(entries@[i as int].0@));
            }
            return Err(ApiError::new(BAD_REQUEST, owned("attribute key or value exceeds maximum length of 4096")));
        }
        let ghost before = input_model(*inputs);
        match crate::inputs::input_get(inputs, key.as_str()) {
            Some(_) => {
                proof {
                    assert(!entries_prefix(entries@, i as int).contains_key(entries@[i as int].0@)) by {
                        lemma_entries_prefix_keys(entries@, i as int, entries@[i as int].0@);
                    }
                    assert(base.contains_key(entries@[i as int].0@));
                    assert(input_model(*inputs) =~= entries_prefix(entries@, i + 1).union_prefer_right(base));
                }
            },
            None => {
                input_insert(inputs, key.clone(), value.clone());
                proof {
                    assert(!base.contains_key(entries@[i as int].0@));
                    assert(input_model(*inputs) =~= entries_prefix(entries@, i + 1).union_prefer_right(base));
                }
            },
        }
        i = i + 1;
    }
    proof {
        assert(entries_prefix(entries@, entries@.len() as int) =~= attrs) by {
            assert forall|k: Seq<char>| #[trigger] attrs.contains_key(k) implies entries_prefix(entries@, entries@.len() as int).contains_key(k) && entries_prefix(entries@, entries@.len() as int)[k] == attrs[k] by {
                let j = choose|j: int| 0 <= j < entries@.len() && (#[trigger] entries@[j]).0@ == k;
                lemma_entries_prefix_value(entries@, entries@.len() as int, j);
                assert(lookup(attrs, entries@[j].0@) == Some(entries@[j].1@));
            }
            assert forall|k: Seq<char>| #[trigger] entries_prefix(entries@, entries@.len() as int).contains_key(k) implies attrs.contains_key(k) by {
                lemma_entries_prefix_keys(entries@, entries@.len() as int, k);
                let j = choose|j: int| 0 <= j < entries@.len() && (#[trigger] entries@[j]).0@ == k;
                assert(lookup(attrs, entries@[j].0@) == Some(entries@[j].1@));
            }
        }
        assert(!attribute_too_long(attrs)) by {
            assert forall|k: Seq<char>| #[trigger] attrs.contains_key(k) implies !(byte_len(k) > MAX_STRING_INPUT_LEN || byte_len(attrs[k]) > MAX_STRING_INPUT_LEN) by {
                let j = choose|j: int| 0 <= j < entries@.len() && (#[trigger] entries@[j]).0@ == k;
                assert(lookup(attrs, entries@[j].0@) == Some(entries@[j].1@));
            }
        }
    }
    Ok(())
}

/// Normalizes a billing webhook: checks its identifiers, derives the
/// idempotency key (`{source}:{truth_key}:{event_id}` unless one is given),
/// fills the truth inputs of its event kind, and adds its attributes under
/// keys that are still free.
pub fn normalize_billing_event(request: BillingIngressRequest) -> (r: Result<NormalizedBillingEvent, ApiError>)
    ensures
        match normalization(request) {
            Ok((source, event_id, key, inputs)) => r matches Ok(ev) && ev.source@ == source
                && ev.event_id@ == event_id && ev.event_kind == request.event_kind
                && ev.truth_key@ == truth_key_of(request.event_kind) && ev.idempotency_key@ == key
                && input_model(ev.inputs) == inputs
                && ev.persist_projection == (match request.persist_projection { Some(b) => b, None => true }),
            Err((status, message)) => r matches Err(e) && api_error_is(e, status, message),
        },
        r is Ok && request.event_kind == BillingEventKind::PrepaidTopUpSettled ==> input_model(
            r->Ok_0.inputs,
        ).contains_key("payment_status"@) && input_model(r->Ok_0.inputs)["payment_status"@] == (
        match request.payment_status {
            Some(p) => p@,
            None => "confirmed"@,
        }),
        r is Ok && request.event_kind == BillingEventKind::SubscriptionPaymentFailed ==> input_model(
            r->Ok_0.inputs,
        ).contains_key("payment_status"@) && input_model(r->Ok_0.inputs)["payment_status"@] == (
        match request.payment_status {
            Some(p) => p@,
            None => "failed"@,
        }),
{
    proof {
        if normalization(request) is Ok {
            law_payment_status_defaults(request);
        }
    }
    let source = owned(required_trimmed(request.source.as_str(), "source")?);
    let event_id = owned(required_trimmed(request.event_id.as_str(), "event_id")?);
    let event_kind = request.event_kind;
    let truth_key = event_kind.truth_key();
    let idempotency_key = match nonblank_text(opt_str(&request.idempotency_key)) {
        Some(k) => k,
        None => {
            let mut k = concat3(source.as_str(), ":", truth_key);
            k.append(":");
            k.append(event_id.as_str());
            proof {
                assert(k@ =~= source@ + ":"@ + truth_key_of(request.event_kind) + ":"@ + event_id@);
            }
            k
        },
    };
    let mut inputs = empty_inputs();
    let persist_projection = match request.persist_projection {
        Some(b) => b,
        None => true,
    };
    fill_kind_inputs(&request, event_id.as_str(), &mut inputs)?;
    let entries_count = input_entries(&request.attributes).len();
    if entries_count > MAX_ATTRIBUTES_COUNT {
        let mut message = concat2("attributes count ", u64_text(entries_count as u64).as_str());
        message.append(" exceeds maximum of 64");
        proof {
            assert(message@ =~= "attributes count "@ + int_decimal(input_model(request.attributes).dom().len() as int) + " exceeds maximum of 64"@);
        }
        return Err(ApiError::new(BAD_REQUEST, message));
    }
    merge_attribute_entries(&request.attributes, &mut inputs)?;
    Ok(NormalizedBillingEvent {
        source,
        event_id,
        event_kind,
        truth_key: owned(truth_key),
        idempotency_key,
        inputs,
        persist_projection,
    })
}


// ---------------------------------------------------------------- responses

/// How a criterion of a truth run ended.
#[derive(Debug, Clone, Copy, PartialEq, Eq)]
pub enum BillingCriterionStatus {
    Met,
    Unmet,
    Indeterminate,
    Blocked,
}

/// One criterion of a truth run.
#[derive(Debug, Clone)]
pub struct BillingCriterionSummary {
    pub criterion_id: String,
    pub description: String,
    pub required: bool,
    pub status: BillingCriterionStatus,
    pub evidence_fact_ids: Vec<String>,
    pub detail: Option<String>,
    pub approval_ref: Option<String>,
}

/// The convergence run of a truth.
#[derive(Debug, Clone)]
pub struct BillingExecutionSummary {
    pub converged: bool,
    pub cycles: u32,
    pub stop_reason: String,
    pub criteria: Vec<BillingCriterionSummary>,
    pub experience_event_kinds: Vec<String>,
}

/// The records that a truth run projected into the CRM.
#[derive(Debug, Clone)]
pub struct BillingProjectionSummary {
    pub persisted: bool,
    pub organization_id: Option<String>,
    pub person_id: Option<String>,
    pub opportunity_id: Option<String>,
    pub subscription_id: Option<String>,
    pub workflow_case_ids: Vec<String>,
    pub document_ids: Vec<String>,
    pub fact_ids: Vec<String>,
    pub entitlement_ids: Vec<String>,
    pub ledger_entry_ids: Vec<String>,
    pub projected_event_kinds: Vec<String>,
}

/// The answer to a billing webhook.
#[derive(Debug, Clone)]
pub struct BillingIngressResponse {
    pub source: String,
    pub event_id: String,
    pub event_kind: BillingEventKind,
    pub truth_key: String,
    pub idempotency_key: String,
    pub duplicate: bool,
    pub in_flight: bool,
    pub execution: Option<BillingExecutionSummary>,
    pub projection: Option<BillingProjectionSummary>,
}


fn copy_text(s: &Option<String>) -> (r: Option<String>)
    ensures
        r == *s,
{
    match s {
        Some(t) => Some(t.clone()),
        None => None,
    }
}

fn copy_texts(v: &Vec<String>) -> (r: Vec<String>)
    ensures
        r@ == v@,
{
    let mut r = Vec::new();
    let mut i: usize = 0;
    while i < v.len()
        invariant
            i <= v@.len(),
            r@ == v@.subrange(0, i as int),
        decreases v@.len() - i,
    {
        r.push(v[i].clone());
        i = i + 1;
        assert(r@ =~= v@.subrange(0, i as int));
    }
    assert(v@.subrange(0, v@.len() as int) =~= v@);
    r
}

/// Two criterion summaries with the same content.
pub open spec fn same_criterion(a: BillingCriterionSummary, b: BillingCriterionSummary) -> bool {
    &&& a.criterion_id == b.criterion_id
    &&& a.description == b.description
    &&& a.required == b.required
    &&& a.status == b.status
    &&& a.evidence_fact_ids@ == b.evidence_fact_ids@
    &&& a.detail == b.detail
    &&& a.approval_ref == b.approval_ref
}

/// Two execution summaries with the same content.
pub open spec fn same_execution(a: BillingExecutionSummary, b: BillingExecutionSummary) -> bool {
    &&& a.converged == b.converged
    &&& a.cycles == b.cycles
    &&& a.stop_reason == b.stop_reason
    &&& a.criteria@.len() == b.criteria@.len()
    &&& forall|i: int| 0 <= i < a.criteria@.len() ==> same_criterion(#[trigger] a.criteria@[i], b.criteria@[i])
    &&& a.experience_event_kinds@ == b.experience_event_kinds@
}

/// Two projection summaries with the same content.
pub open spec fn same_projection(a: BillingProjectionSummary, b: BillingProjectionSummary) -> bool {
    &&& a.persisted == b.persisted
    &&& a.organization_id == b.organization_id
    &&& a.person_id == b.person_id
    &&& a.opportunity_id == b.opportunity_id
    &&& a.subscription_id == b.subscription_id
    &&& a.workflow_case_ids@ == b.workflow_case_ids@
    &&& a.document_ids@ == b.document_ids@
    &&& a.fact_ids@ == b.fact_ids@
    &&& a.entitlement_ids@ == b.entitlement_ids@
    &&& a.ledger_entry_ids@ == b.ledger_entry_ids@
    &&& a.projected_event_kinds@ == b.projected_event_kinds@
}

/// Two webhook answers with the same content.
pub open spec fn same_response(a: BillingIngressResponse, b: BillingIngressResponse) -> bool {
    &&& a.source == b.source
    &&& a.event_id == b.event_id
    &&& a.event_kind == b.event_kind
    &&& a.truth_key == b.truth_key
    &&& a.idempotency_key == b.idempotency_key
    &&& a.duplicate == b.duplicate
    &&& a.in_flight == b.in_flight
    &&& match (a.execution, b.execution) {
        (Some(x), Some(y)) => same_execution(x, y),
        (None, None) => true,
        _ => false,
    }
    &&& match (a.projection, b.projection) {
        (Some(x), Some(y)) => same_projection(x, y),
        (None, None) => true,
        _ => false,
    }
}

impl BillingCriterionSummary {
    pub fn copy(&self) -> (r: Self)
        ensures
            same_criterion(r, *self),
    {
        BillingCriterionSummary {
            criterion_id: self.criterion_id.clone(),
            description: self.description.clone(),
            required: self.required,
            status: self.status,
            evidence_fact_ids: copy_texts(&self.evidence_fact_ids),
            detail: copy_text(&self.detail),
            approval_ref: copy_text(&self.approval_ref),
        }
    }
}

impl BillingExecutionSummary {
    pub fn copy(&self) -> (r: Self)
        ensures
            same_execution(r, *self),
    {
        let mut criteria = Vec::new();
        let mut i: usize = 0;
        while i < self.criteria.len()
            invariant
                i <= self.criteria@.len(),
                criteria@.len() == i,
                forall|j: int| 0 <= j < i ==> same_criterion(#[trigger] criteria@[j], self.criteria@[j]),
            decreases self.criteria@.len() - i,
        {
            criteria.push(self.criteria[i].copy());
            i = i + 1;
        }
        BillingExecutionSummary {
            converged: self.converged,
            cycles: self.cycles,
            stop_reason: self.stop_reason.clone(),
            criteria,
            experience_event_kinds: copy_texts(&self.experience_event_kinds),
        }
    }
}

impl BillingProjectionSummary {
    pub fn copy(&self) -> (r: Self)
        ensures
            same_projection(r, *self),
    {
        BillingProjectionSummary {
            persisted: self.persisted,
            organization_id: copy_text(&self.organization_id),
            person_id: copy_text(&self.person_id),
            opportunity_id: copy_text(&self.opportunity_id),
            subscription_id: copy_text(&self.subscription_id),
            workflow_case_ids: copy_texts(&self.workflow_case_ids),
            document_ids: copy_texts(&self.document_ids),
            fact_ids: copy_texts(&self.fact_ids),
            entitlement_ids: copy_texts(&self.entitlement_ids),
            ledger_entry_ids: copy_texts(&self.ledger_entry_ids),
            projected_event_kinds: copy_texts(&self.projected_event_kinds),
        }
    }
}

impl BillingIngressResponse {
    pub fn copy(&self) -> (r: Self)
        ensures
            same_response(r, *self),
    {
        BillingIngressResponse {
            source: self.source.clone(),
            event_id: self.event_id.clone(),
            event_kind: self.event_kind,
            truth_key: self.truth_key.clone(),
            idempotency_key: self.idempotency_key.clone(),
            duplicate: self.duplicate,
            in_flight: self.in_flight,
            execution: match &self.execution {
                Some(e) => Some(e.copy()),
                None => None,
            },
            projection: match &self.projection {
                Some(p) => Some(p.copy()),
                None => None,
            },
        }
    }
}

/// The answer to a webhook whose truth ran: not a duplicate, not in flight.
pub fn billing_response_from_execution(
    source: String,
    event_id: String,
    event_kind: BillingEventKind,
    truth_key: &str,
    idempotency_key: String,
    execution: crate::runtime::TruthExecutionArtifacts,
) -> (r: BillingIngressResponse)
    ensures
        r == (BillingIngressResponse {
            source,
            event_id,
            event_kind,
            truth_key: r.truth_key,
            idempotency_key,
            duplicate: false,
            in_flight: false,
            execution: Some(execution.execution),
            projection: execution.projection,
        }),
        r.truth_key@ == truth_key@,
{
    BillingIngressResponse {
        source,
        event_id,
        event_kind,
        truth_key: owned(truth_key),
        idempotency_key,
        duplicate: false,
        in_flight: false,
        execution: Some(execution.execution),
        projection: execution.projection,
    }
}

// ---------------------------------------------------------------- idempotency

/// What the ingress remembers of an idempotency key.
#[derive(Debug, Clone)]
pub enum ProcessedBillingEvent {
    InFlight {
        source: String,
        event_id: String,
        event_kind: BillingEventKind,
        truth_key: String,
        idempotency_key: String,
    },
    Completed(BillingIngressResponse),
}

/// What the ingress does with a normalized event.
#[derive(Debug, Clone)]
pub enum BillingAdmission {
    /// The event is new: run its truth.
    Execute,
    /// The event was seen before: answer with this.
    Answered(BillingIngressResponse),
}

/// The answer to a repeated delivery of a completed event.
pub open spec fn duplicate_answer(response: BillingIngressResponse) -> BillingIngressResponse {
    BillingIngressResponse { duplicate: true, ..response }
}

/// The answer to a delivery of an event whose truth is still running.
pub open spec fn in_flight_answer(p: ProcessedBillingEvent) -> BillingIngressResponse {
    match p {
        ProcessedBillingEvent::InFlight { source, event_id, event_kind, truth_key, idempotency_key } =>
            BillingIngressResponse {
            source,
            event_id,
            event_kind,
            truth_key,
            idempotency_key,
            duplicate: true,
            in_flight: true,
            execution: None,
            projection: None,
        },
        ProcessedBillingEvent::Completed(r) => r,
    }
}

/// The marker left for an event whose truth starts running.
pub open spec fn in_flight_marker(ev: NormalizedBillingEvent) -> ProcessedBillingEvent {
    ProcessedBillingEvent::InFlight {
        source: ev.source,
        event_id: ev.event_id,
        event_kind: ev.event_kind,
        truth_key: ev.truth_key,
        idempotency_key: ev.idempotency_key,
    }
}

/// Whether `answer` and `after` are what the ledger's content `ledger`
/// gives for an event: a key seen before is answered (as a duplicate of the
/// stored answer, or as in flight) and the content stays; a new key is to be
/// executed and is marked in flight.
pub open spec fn admission(
    ledger: Map<Seq<char>, ProcessedBillingEvent>,
    ev: NormalizedBillingEvent,
    answer: BillingAdmission,
    after: Map<Seq<char>, ProcessedBillingEvent>,
) -> bool {
    let key = ev.idempotency_key@;
    if ledger.contains_key(key) {
        &&& after == ledger
        &&& match ledger[key] {
            ProcessedBillingEvent::Completed(response) => answer matches BillingAdmission::Answered(
                a,
            ) && same_response(a, duplicate_answer(response)),
            p => answer == BillingAdmission::Answered(in_flight_answer(p)),
        }
    } else {
        &&& answer is Execute
        &&& after == ledger.insert(key, in_flight_marker(ev))
    }
}

/// The billing events seen so far, by idempotency key.
pub struct BillingIdempotencyLedger {
    processed: HashMap<String, ProcessedBillingEvent>,
}

impl View for BillingIdempotencyLedger {
    type V = Map<Seq<char>, ProcessedBillingEvent>;

    closed spec fn view(&self) -> Map<Seq<char>, ProcessedBillingEvent> {
        text_keyed(self.processed@)
    }
}

impl BillingIdempotencyLedger {
    /// A ledger that has seen nothing.
    pub fn new() -> (r: Self)
        ensures
            r@ == Map::<Seq<char>, ProcessedBillingEvent>::empty(),
    {
        BillingIdempotencyLedger { processed: empty_map() }
    }

    /// Accepts an event: a new key starts in flight and is to be executed; a
    /// key seen before is answered as a duplicate, in flight or with the
    /// stored answer, and the ledger stays as it was.
    pub fn accept(&mut self, event: &NormalizedBillingEvent) -> (r: BillingAdmission)
        ensures
            admission(old(self)@, *event, r, final(self)@),
    {
        match map_get(&self.processed, event.idempotency_key.as_str()) {
            Some(ProcessedBillingEvent::Completed(response)) => {
                let mut duplicate = response.copy();
                duplicate.duplicate = true;
                BillingAdmission::Answered(duplicate)
            },
            Some(ProcessedBillingEvent::InFlight { source, event_id, event_kind, truth_key, idempotency_key }) => {
                BillingAdmission::Answered(
                    BillingIngressResponse {
                        source: source.clone(),
                        event_id: event_id.clone(),
                        event_kind: *event_kind,
                        truth_key: truth_key.clone(),
                        idempotency_key: idempotency_key.clone(),
                        duplicate: true,
                        in_flight: true,
                        execution: None,
                        projection: None,
                    },
                )
            },
            None => {
                map_insert(
                    &mut self.processed,
                    event.idempotency_key.clone(),
                    ProcessedBillingEvent::InFlight {
                        source: event.source.clone(),
                        event_id: event.event_id.clone(),
                        event_kind: event.event_kind,
                        truth_key: event.truth_key.clone(),
                        idempotency_key: event.idempotency_key.clone(),
                    },
                );
                BillingAdmission::Execute
            },
        }
    }

    /// Records the answer of a completed event under its key.
    pub fn complete(&mut self, idempotency_key: &str, response: BillingIngressResponse)
        ensures
            final(self)@ == old(self)@.insert(
                idempotency_key@,
                ProcessedBillingEvent::Completed(response),
            ),
    {
        map_insert(&mut self.processed, owned(idempotency_key), ProcessedBillingEvent::Completed(response));
    }

    /// Forgets a key whose truth failed, so that a later delivery runs again.
    pub fn abandon(&mut self, idempotency_key: &str)
        ensures
            final(self)@ == old(self)@.remove(idempotency_key@),
    {
        map_remove(&mut self.processed, idempotency_key);
    }
}

/// A completed event is answered from the ledger, marked as a duplicate,
/// and is not run again.
pub proof fn law_completed_event_answered_as_duplicate(
    ledger: Map<Seq<char>, ProcessedBillingEvent>,
    event: NormalizedBillingEvent,
    response: BillingIngressResponse,
    answer: BillingAdmission,
    after: Map<Seq<char>, ProcessedBillingEvent>,
)
    requires
        admission(
            ledger.insert(event.idempotency_key@, ProcessedBillingEvent::Completed(response)),
            event,
            answer,
            after,
        ),
    ensures
        answer matches BillingAdmission::Answered(a) && a.duplicate && same_response(
            a,
            duplicate_answer(response),
        ),
        after == ledger.insert(event.idempotency_key@, ProcessedBillingEvent::Completed(response)),
{
}

/// A new event is run once while it is in flight: a second delivery is
/// answered as in flight and changes nothing.
pub proof fn law_in_flight_event_not_run_twice(
    ledger: Map<Seq<char>, ProcessedBillingEvent>,
    event: NormalizedBillingEvent,
    first: BillingAdmission,
    after: Map<Seq<char>, ProcessedBillingEvent>,
    second: BillingAdmission,
    after2: Map<Seq<char>, ProcessedBillingEvent>,
)
    requires
        !ledger.contains_key(event.idempotency_key@),
        admission(ledger, event, first, after),
        admission(after, event, second, after2),
    ensures
        first is Execute,
        second matches BillingAdmission::Answered(a) && a.duplicate && a.in_flight && a.execution is None,
        after2 == after,
{
}

/// A key forgotten after a failure is run again on the next delivery.
pub proof fn law_abandoned_event_runs_again(
    ledger: Map<Seq<char>, ProcessedBillingEvent>,
    event: NormalizedBillingEvent,
    answer: BillingAdmission,
    after: Map<Seq<char>, ProcessedBillingEvent>,
)
    requires
        admission(ledger.remove(event.idempotency_key@), event, answer, after),
    ensures
        answer is Execute,
{
}


// ---------------------------------------------------------------- error answers

/// The HTTP status that a runtime status code is answered with.
pub open spec fn http_status_for(code: StatusCode) -> u16 {
    match code {
        StatusCode::InvalidArgument => 400,
        StatusCode::NotFound => 404,
        StatusCode::AlreadyExists => 409,
        StatusCode::PermissionDenied => 403,
        StatusCode::FailedPrecondition => 412,
        StatusCode::Aborted => 409,
        StatusCode::OutOfRange => 400,
        StatusCode::Unimplemented => 501,
        StatusCode::Internal => 500,
        StatusCode::Unavailable => 503,
        StatusCode::Unauthenticated => 401,
        StatusCode::ResourceExhausted => 429,
        _ => 502,
    }
}

/// Answers a runtime status with its HTTP status and its message.
pub fn api_error_from_status(status: Status) -> (r: ApiError)
    ensures
        r.status == http_status_for(status.code),
        r.message == status.message,
{
    let http = match status.code {
        StatusCode::InvalidArgument => 400,
        StatusCode::NotFound => 404,
        StatusCode::AlreadyExists => 409,
        StatusCode::PermissionDenied => 403,
        StatusCode::FailedPrecondition => 412,
        StatusCode::Aborted => 409,
        StatusCode::OutOfRange => 400,
        StatusCode::Unimplemented => 501,
        StatusCode::Internal => 500,
        StatusCode::Unavailable => 503,
        StatusCode::Unauthenticated => 401,
        StatusCode::ResourceExhausted => 429,
        _ => 502,
    };
    ApiError::new(http, status.message)
}

/// The HTTP answer to a CRM kernel failure.
pub open spec fn kernel_error_answer(error: KernelError) -> (u16, Seq<char>) {
    match error {
        KernelError::Validation(m) => (400, m@),
        KernelError::NotFound { kind, id } => (404, kind@ + " not found: "@ + id@),
        KernelError::Invariant(m) => (412, m@),
        KernelError::Conflict(m) => (409, m@),
    }
}

pub fn api_error_from_kernel(error: KernelError) -> (r: ApiError)
    ensures
        (r.status, r.message@) == kernel_error_answer(error),
{
    match error {
        KernelError::Validation(m) => ApiError::new(400, m),
        KernelError::NotFound { kind, id } => ApiError::new(
            404,
            concat3(kind.as_str(), " not found: ", id.as_str()),
        ),
        KernelError::Invariant(m) => ApiError::new(412, m),
        KernelError::Conflict(m) => ApiError::new(409, m),
    }
}

/// The HTTP answer to a storage failure.
pub open spec fn storage_error_answer(error: StorageError) -> (u16, Seq<char>) {
    match error {
        StorageError::LockPoisoned => (500, "storage lock poisoned"@),
        StorageError::Kernel(k) => kernel_error_answer(k),
        StorageError::ConnectionFailed { backend, message } => (
            503,
            backend@ + " connection failed: "@ + message@,
        ),
        StorageError::SerializationFailed { message } => (500, message@),
        StorageError::Timeout { operation } => (504, operation@),
        StorageError::RuntimeStore { message } => (500, message@),
    }
}

pub fn api_error_from_storage(error: StorageError) -> (r: ApiError)
    ensures
        (r.status, r.message@) == storage_error_answer(error),
{
    match error {
        StorageError::LockPoisoned => ApiError::new(500, owned("storage lock poisoned")),
        StorageError::Kernel(k) => api_error_from_kernel(k),
        StorageError::ConnectionFailed { backend, message } => ApiError::new(
            503,
            concat3(backend.as_str(), " connection failed: ", message.as_str()),
        ),
        StorageError::SerializationFailed { message } => ApiError::new(500, message),
        StorageError::Timeout { operation } => ApiError::new(504, operation),
        StorageError::RuntimeStore { message } => ApiError::new(500, message),
    }
}

// ---------------------------------------------------------------- the ingress

/// Whether `r` answers the event `ev` whose truth ran with artifacts `a`:
/// the event's identity, neither a duplicate nor in flight, with the run's
/// execution summary and projection.
pub open spec fn answers_execution(r: BillingIngressResponse, ev: NormalizedBillingEvent, a: TruthExecutionArtifacts) -> bool {
    &&& r.source == ev.source
    &&& r.event_id == ev.event_id
    &&& r.event_kind == ev.event_kind
    &&& r.truth_key@ == ev.truth_key@
    &&& r.idempotency_key == ev.idempotency_key
    &&& !r.duplicate
    &&& !r.in_flight
    &&& r.execution == Some(a.execution)
    &&& r.projection == a.projection
}

/// Whether `ev` is the normalized form of a webhook: the parts that
/// normalization gives, the request's kind and its truth, and whether to
/// persist the projection (yes unless the request says no).
pub open spec fn normalized_as(
    ev: NormalizedBillingEvent,
    request: BillingIngressRequest,
    source: Seq<char>,
    event_id: Seq<char>,
    key: Seq<char>,
    inputs: Map<Seq<char>, Seq<char>>,
) -> bool {
    &&& ev.source@ == source
    &&& ev.event_id@ == event_id
    &&& ev.event_kind == request.event_kind
    &&& ev.truth_key@ == truth_key_of(request.event_kind)
    &&& ev.idempotency_key@ == key
    &&& input_model(ev.inputs) == inputs
    &&& ev.persist_projection == (match request.persist_projection { Some(b) => b, None => true })
}

/// What the ingress does with a webhook it accepted.
#[derive(Debug)]
pub enum IngressStep {
    /// A new event, now marked in flight: execute its truth, then settle it.
    Execute(NormalizedBillingEvent),
    /// A repeated delivery, answered from the ledger.
    Answered(BillingIngressResponse),
}

/// The actor a billing webhook's truth runs as: the system, named after the
/// event's source.
pub fn ingress_actor(event: &NormalizedBillingEvent) -> (r: Actor)
    ensures
        r.actor_id@ == "billing-ingress:"@ + event.source@,
        r.display_name@ == event.source@ + " billing ingress"@,
        r.kind == ActorKind::System,
{
    Actor {
        actor_id: concat2("billing-ingress:", event.source.as_str()),
        display_name: concat2(event.source.as_str(), " billing ingress"),
        kind: ActorKind::System,
    }
}

/// The billing webhook endpoint: its token and the events it has seen.
pub struct BillingIngress {
    billing_ingress_token: Option<String>,
    ledger: BillingIdempotencyLedger,
}

impl View for BillingIngress {
    type V = Map<Seq<char>, ProcessedBillingEvent>;

    closed spec fn view(&self) -> Map<Seq<char>, ProcessedBillingEvent> {
        self.ledger@
    }
}

impl BillingIngress {
    /// The configured token, as text.
    pub closed spec fn token(&self) -> Option<Seq<char>> {
        opt_text(self.billing_ingress_token)
    }

    /// An endpoint with the given token that has seen no event.
    pub fn new(billing_ingress_token: Option<String>) -> (r: Self)
        ensures
            r.token() == opt_text(billing_ingress_token),
            r@ == Map::<Seq<char>, ProcessedBillingEvent>::empty(),
    {
        BillingIngress { billing_ingress_token, ledger: BillingIdempotencyLedger::new() }
    }

    /// Accepts a billing webhook: authorizes it, normalizes it, answers a
    /// repeated delivery from the ledger (leaving the ledger as it was), and
    /// marks a new event in flight and hands it back for execution.
    pub fn accept_webhook(&mut self, authorization: Option<&str>, request: BillingIngressRequest) -> (r: Result<
        IngressStep,
        ApiError,
    >)
        ensures
            final(self).token() == old(self).token(),
            match authorization_refusal(
                old(self).token(),
                match authorization { Some(h) => Some(h@), None => None },
            ) {
                Some((status, message)) => r matches Err(e) && api_error_is(e, status, message)
                    && final(self)@ == old(self)@,
                None => match normalization(request) {
                    Err((status, message)) => r matches Err(e) && api_error_is(e, status, message)
                        && final(self)@ == old(self)@,
                    Ok((source, event_id, key, inputs)) => if old(self)@.contains_key(key) {
                        &&& final(self)@ == old(self)@
                        &&& match old(self)@[key] {
                            ProcessedBillingEvent::Completed(response) => r matches Ok(IngressStep::Answered(a))
                                && same_response(a, duplicate_answer(response)),
                            p => r matches Ok(IngressStep::Answered(a)) && a == in_flight_answer(p),
                        }
                    } else {
                        r matches Ok(IngressStep::Execute(ev)) && normalized_as(ev, request, source, event_id, key, inputs)
                            && final(self)@ == old(self)@.insert(key, in_flight_marker(ev))
                    },
                },
            },
    {
        let token = match &self.billing_ingress_token {
            Some(t) => Some(t.as_str()),
            None => None,
        };
        authorize_billing_ingress(token, authorization)?;
        let normalized = normalize_billing_event(request)?;
        match self.ledger.accept(&normalized) {
            BillingAdmission::Answered(answer) => Ok(IngressStep::Answered(answer)),
            BillingAdmission::Execute => Ok(IngressStep::Execute(normalized)),
        }
    }

    /// Settles an event whose truth was executed, with what the execution
    /// gave: a run is answered from its artifacts and remembered as
    /// completed under the event's key; a failure forgets the key, so that a
    /// later delivery runs again, and is answered with the failure's status.
    pub fn settle(&mut self, event: NormalizedBillingEvent, outcome: TruthOutcome) -> (r: Result<
        BillingIngressResponse,
        ApiError,
    >)
        ensures
            final(self).token() == old(self).token(),
            match outcome {
                Ok(a) => {
                    &&& final(self)@ == old(self)@.insert(event.idempotency_key@, final(self)@[event.idempotency_key@])
                    &&& final(self)@[event.idempotency_key@] matches ProcessedBillingEvent::Completed(stored)
                        && answers_execution(stored, event, a)
                        && (r matches Ok(answer) && same_response(answer, stored))
                },
                Err(status) => {
                    &&& final(self)@ == old(self)@.remove(event.idempotency_key@)
                    &&& r matches Err(e) && e.status == http_status_for(status.code) && e.message == status.message
                },
            },
    {
        match outcome {
            Ok(execution) => {
                let key = event.idempotency_key.clone();
                let response = billing_response_from_execution(
                    event.source,
                    event.event_id,
                    event.event_kind,
                    event.truth_key.as_str(),
                    event.idempotency_key,
                    execution,
                );
                let answer = response.copy();
                self.ledger.complete(key.as_str(), response);
                Ok(answer)
            },
            Err(status) => {
                self.ledger.abandon(event.idempotency_key.as_str());
                Err(api_error_from_status(status))
            },
        }
    }
}

/// A webhook whose truth ran once is not run again: once its run is
/// settled, the next delivery of the same event is answered from the
/// ledger as a duplicate of the stored answer, and the ledger stays.
pub proof fn law_settled_event_answered_as_duplicate(
    ledger: Map<Seq<char>, ProcessedBillingEvent>,
    event: NormalizedBillingEvent,
    a: TruthExecutionArtifacts,
    marked: Map<Seq<char>, ProcessedBillingEvent>,
    stored: BillingIngressResponse,
    second: BillingAdmission,
    after: Map<Seq<char>, ProcessedBillingEvent>,
)
    requires
        !ledger.contains_key(event.idempotency_key@),
        admission(ledger, event, BillingAdmission::Execute, marked),
        answers_execution(stored, event, a),
        admission(
            marked.insert(event.idempotency_key@, ProcessedBillingEvent::Completed(stored)),
            event,
            second,
            after,
        ),
    ensures
        second matches BillingAdmission::Answered(x) && x.duplicate && !x.in_flight && same_response(
            x,
            duplicate_answer(stored),
        ),
        after == ledger.insert(event.idempotency_key@, ProcessedBillingEvent::Completed(stored)),
{
    assert(marked.insert(event.idempotency_key@, ProcessedBillingEvent::Completed(stored)) =~= ledger.insert(
        event.idempotency_key@,
        ProcessedBillingEvent::Completed(stored),
    ));
}


} // verus!
