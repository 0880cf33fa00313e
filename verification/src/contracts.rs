//! CRM billing contracts: the billing event kinds and the truth inputs that
//! billing events carry, read from string-keyed input maps.
use std::collections::HashMap;
use vstd::prelude::*;
use crate::ids::{parse_rfc3339, parse_uuid, parsed_rfc3339, parsed_uuid, uuid_hyphenated, uuid_text, UtcTimestamp};
use crate::inputs::{input_model, no_inputs, present, present_value};
use crate::text::{
    ascii_lower, ascii_lowercase, concat5, lemma_lower_word_reads_as_itself, lower_word, opt_text, parse_i64,
    parse_i64_text, str_eq, trim, trim_str,
};

verus! {

/// The billing events that external systems report.
#[derive(Debug, Clone, Copy, PartialEq, Eq)]
pub enum BillingEventKind {
    PrepaidTopUpSettled,
    SubscriptionActivationRequested,
    SubscriptionPaymentFailed,
    LedgerReconciliationRequested,
}

/// The truth that each billing event kind executes.
pub open spec fn truth_key_of(kind: BillingEventKind) -> Seq<char> {
    match kind {
        BillingEventKind::PrepaidTopUpSettled => "refill-prepaid-ai-credits"@,
        BillingEventKind::SubscriptionActivationRequested => "activate-subscription"@,
        BillingEventKind::SubscriptionPaymentFailed => "suspend-service-on-payment-failure"@,
        BillingEventKind::LedgerReconciliationRequested => "reconcile-model-usage-against-customer-ledger"@,
    }
}

impl BillingEventKind {
    /// The key of the truth that this event kind executes.
    pub fn truth_key(&self) -> (r: &'static str)
        ensures
            r@ == truth_key_of(*self),
    {
        match self {
            BillingEventKind::PrepaidTopUpSettled => "refill-prepaid-ai-credits",
            BillingEventKind::SubscriptionActivationRequested => "activate-subscription",
            BillingEventKind::SubscriptionPaymentFailed => "suspend-service-on-payment-failure",
            BillingEventKind::LedgerReconciliationRequested => "reconcile-model-usage-against-customer-ledger",
        }
    }
}

/// Why a contract could not be read from its inputs.
#[derive(Debug, Clone, PartialEq, Eq)]
pub enum ContractParseError {
    MissingInput(&'static str),
    InvalidUuid { field: &'static str, value: String },
    InvalidInteger { field: &'static str, value: String },
    InvalidDateTime { field: &'static str, value: String },
}

/// Where a truth execution keeps its runtime context.
#[derive(Debug, Clone)]
pub struct RuntimeExecutionScope {
    pub context_scope_id: Option<String>,
    pub resume_context: bool,
}

impl RuntimeExecutionScope {
    /// The configured scope id, or `fallback` when there is none.
    pub fn context_scope_id_or(&self, fallback: String) -> (r: String)
        ensures
            r@ == (match self.context_scope_id {
                Some(s) => s@,
                None => fallback@,
            }),
    {
        match &self.context_scope_id {
            Some(s) => s.clone(),
            None => fallback,
        }
    }
}

/// How far a credit top-up's payment has got.
#[derive(Debug, Clone, Copy, PartialEq, Eq)]
pub enum CreditPaymentStatus {
    Confirmed,
    Pending,
    Failed,
    Unknown,
}

pub open spec fn credit_payment_status_name(s: CreditPaymentStatus) -> Seq<char> {
    match s {
        CreditPaymentStatus::Confirmed => "confirmed"@,
        CreditPaymentStatus::Pending => "pending"@,
        CreditPaymentStatus::Failed => "failed"@,
        CreditPaymentStatus::Unknown => "unknown"@,
    }
}

impl CreditPaymentStatus {
    pub fn as_str(&self) -> (r: &'static str)
        ensures
            r@ == credit_payment_status_name(*self),
    {
        match self {
            CreditPaymentStatus::Confirmed => "confirmed",
            CreditPaymentStatus::Pending => "pending",
            CreditPaymentStatus::Failed => "failed",
            CreditPaymentStatus::Unknown => "unknown",
        }
    }
}

/// How a subscription payment failed.
#[derive(Debug, Clone, Copy, PartialEq, Eq)]
pub enum SubscriptionFailureStatus {
    Failed,
    Overdue,
}

pub open spec fn subscription_failure_status_name(s: SubscriptionFailureStatus) -> Seq<char> {
    match s {
        SubscriptionFailureStatus::Failed => "failed"@,
        SubscriptionFailureStatus::Overdue => "overdue"@,
    }
}

impl SubscriptionFailureStatus {
    pub fn as_str(&self) -> (r: &'static str)
        ensures
            r@ == subscription_failure_status_name(*self),
    {
        match self {
            SubscriptionFailureStatus::Failed => "failed",
            SubscriptionFailureStatus::Overdue => "overdue",
        }
    }
}

// ---------------------------------------------------------------- readers

/// What reading required text under `key` gives.
pub open spec fn required_string_outcome(
    m: Map<Seq<char>, Seq<char>>,
    key: Seq<char>,
    r: Result<String, ContractParseError>,
) -> bool {
    match present(m, key) {
        None => r matches Err(ContractParseError::MissingInput(f)) && f@ == key,
        Some(t) => r matches Ok(v) && v@ == t,
    }
}

/// What reading a required UUID under `key` gives.
pub open spec fn required_uuid_outcome(
    m: Map<Seq<char>, Seq<char>>,
    key: Seq<char>,
    r: Result<u128, ContractParseError>,
) -> bool {
    match present(m, key) {
        None => r matches Err(ContractParseError::MissingInput(f)) && f@ == key,
        Some(t) => match parsed_uuid(t) {
            Some(u) => r matches Ok(x) && x == u,
            None => r matches Err(ContractParseError::InvalidUuid { field, value }) && field@ == key
                && value@ == t,
        },
    }
}

/// What reading an optional UUID under `key` gives.
pub open spec fn optional_uuid_outcome(
    m: Map<Seq<char>, Seq<char>>,
    key: Seq<char>,
    r: Result<Option<u128>, ContractParseError>,
) -> bool {
    match present(m, key) {
        None => r matches Ok(None),
        Some(t) => match parsed_uuid(t) {
            Some(u) => r matches Ok(Some(x)) && x == u,
            None => r matches Err(ContractParseError::InvalidUuid { field, value }) && field@ == key
                && value@ == t,
        },
    }
}

/// What reading a required integer under `key` gives.
pub open spec fn required_i64_outcome(
    m: Map<Seq<char>, Seq<char>>,
    key: Seq<char>,
    r: Result<i64, ContractParseError>,
) -> bool {
    match present(m, key) {
        None => r matches Err(ContractParseError::MissingInput(f)) && f@ == key,
        Some(t) => match parse_i64(t) {
            Some(v) => r matches Ok(x) && x == v,
            None => r matches Err(ContractParseError::InvalidInteger { field, value }) && field@
                == key && value@ == t,
        },
    }
}

/// What reading an optional integer under `key` gives.
pub open spec fn optional_i64_outcome(
    m: Map<Seq<char>, Seq<char>>,
    key: Seq<char>,
    r: Result<Option<i64>, ContractParseError>,
) -> bool {
    match present(m, key) {
        None => r matches Ok(None),
        Some(t) => match parse_i64(t) {
            Some(v) => r matches Ok(Some(x)) && x == v,
            None => r matches Err(ContractParseError::InvalidInteger { field, value }) && field@
                == key && value@ == t,
        },
    }
}

/// Whether a required UUID reads.
pub open spec fn uuid_reads(m: Map<Seq<char>, Seq<char>>, key: Seq<char>) -> bool {
    present(m, key) matches Some(t) && parsed_uuid(t) is Some
}

/// Whether an optional UUID reads (absent counts).
pub open spec fn optional_uuid_reads(m: Map<Seq<char>, Seq<char>>, key: Seq<char>) -> bool {
    present(m, key) matches Some(t) ==> parsed_uuid(t) is Some
}

/// Whether a required integer reads.
pub open spec fn i64_reads(m: Map<Seq<char>, Seq<char>>, key: Seq<char>) -> bool {
    present(m, key) matches Some(t) && parse_i64(t) is Some
}

/// Whether an optional integer reads (absent counts).
pub open spec fn optional_i64_reads(m: Map<Seq<char>, Seq<char>>, key: Seq<char>) -> bool {
    present(m, key) matches Some(t) ==> parse_i64(t) is Some
}


/// A boolean written as `true`/`1`/`yes` or `false`/`0`/`no`, in any ASCII case.
pub open spec fn bool_word(s: Seq<char>) -> Option<bool> {
    let l = ascii_lower(s);
    if l == "true"@ || l == "1"@ || l == "yes"@ {
        Some(true)
    } else if l == "false"@ || l == "0"@ || l == "no"@ {
        Some(false)
    } else {
        None
    }
}

/// The boolean under `k`, when present and written as a boolean word.
pub open spec fn present_bool(m: Map<Seq<char>, Seq<char>>, k: Seq<char>) -> Option<bool> {
    match present(m, k) {
        Some(v) => bool_word(v),
        None => None,
    }
}

/// The trimmed, non-blank text under `key`, or `MissingInput(key)`.
pub fn required_string(inputs: &HashMap<String, String>, key: &'static str) -> (r: Result<
    String,
    ContractParseError,
>)
    ensures
        required_string_outcome(input_model(*inputs), key@, r),
        match r {
            Ok(v) => present(input_model(*inputs), key@) == Some(v@),
            Err(e) => present(input_model(*inputs), key@) is None && e
                == ContractParseError::MissingInput(key),
        },
{
    match present_value(inputs, key) {
        Some(v) => Ok(v),
        None => Err(ContractParseError::MissingInput(key)),
    }
}

/// The trimmed, non-blank text under `key`, if any.
pub fn optional_string(inputs: &HashMap<String, String>, key: &str) -> (r: Option<String>)
    ensures
        opt_text(r) == present(input_model(*inputs), key@),
{
    present_value(inputs, key)
}

/// The UUID under `key`: `MissingInput` when absent or blank, `InvalidUuid`
/// carrying the trimmed text when it is not a UUID.
pub fn required_uuid(inputs: &HashMap<String, String>, key: &'static str) -> (r: Result<
    u128,
    ContractParseError,
>)
    ensures
        required_uuid_outcome(input_model(*inputs), key@, r),
        match present(input_model(*inputs), key@) {
            None => r == Err::<u128, ContractParseError>(ContractParseError::MissingInput(key)),
            Some(t) => match parsed_uuid(t) {
                Some(u) => r == Ok::<u128, ContractParseError>(u),
                None => r matches Err(ContractParseError::InvalidUuid { field, value }) && field
                    == key && value@ == t,
            },
        },
{
    let value = required_string(inputs, key)?;
    match parse_uuid(value.as_str()) {
        Some(u) => Ok(u),
        None => Err(ContractParseError::InvalidUuid { field: key, value }),
    }
}

/// The UUID under `key` when present; `InvalidUuid` when present but not a UUID.
pub fn optional_uuid(inputs: &HashMap<String, String>, key: &'static str) -> (r: Result<
    Option<u128>,
    ContractParseError,
>)
    ensures
        optional_uuid_outcome(input_model(*inputs), key@, r),
        match present(input_model(*inputs), key@) {
            None => r == Ok::<Option<u128>, ContractParseError>(None),
            Some(t) => match parsed_uuid(t) {
                Some(u) => r == Ok::<Option<u128>, ContractParseError>(Some(u)),
                None => r matches Err(ContractParseError::InvalidUuid { field, value }) && field
                    == key && value@ == t,
            },
        },
{
    match optional_string(inputs, key) {
        None => Ok(None),
        Some(value) => match parse_uuid(value.as_str()) {
            Some(u) => Ok(Some(u)),
            None => Err(ContractParseError::InvalidUuid { field: key, value }),
        },
    }
}

/// The integer under `key`: `MissingInput` when absent or blank,
/// `InvalidInteger` carrying the trimmed text when it is not an `i64`.
pub fn required_i64(inputs: &HashMap<String, String>, key: &'static str) -> (r: Result<
    i64,
    ContractParseError,
>)
    ensures
        required_i64_outcome(input_model(*inputs), key@, r),
        match present(input_model(*inputs), key@) {
            None => r == Err::<i64, ContractParseError>(ContractParseError::MissingInput(key)),
            Some(t) => match parse_i64(t) {
                Some(v) => r matches Ok(x) && x == v,
                None => r matches Err(ContractParseError::InvalidInteger { field, value }) && field
                    == key && value@ == t,
            },
        },
{
    let value = required_string(inputs, key)?;
    match parse_i64_text(value.as_str()) {
        Some(v) => Ok(v),
        None => Err(ContractParseError::InvalidInteger { field: key, value }),
    }
}

/// The integer under `key` when present; `InvalidInteger` when present but
/// not an `i64`.
pub fn optional_i64(inputs: &HashMap<String, String>, key: &'static str) -> (r: Result<
    Option<i64>,
    ContractParseError,
>)
    ensures
        optional_i64_outcome(input_model(*inputs), key@, r),
        match present(input_model(*inputs), key@) {
            None => r == Ok::<Option<i64>, ContractParseError>(None),
            Some(t) => match parse_i64(t) {
                Some(v) => r matches Ok(Some(x)) && x == v,
                None => r matches Err(ContractParseError::InvalidInteger { field, value }) && field
                    == key && value@ == t,
            },
        },
{
    match optional_string(inputs, key) {
        None => Ok(None),
        Some(value) => match parse_i64_text(value.as_str()) {
            Some(v) => Ok(Some(v)),
            None => Err(ContractParseError::InvalidInteger { field: key, value }),
        },
    }
}

/// The RFC 3339 instant under `key`, in UTC: `MissingInput` when absent or
/// blank, `InvalidDateTime` carrying the trimmed text when it does not parse.
pub fn required_datetime(inputs: &HashMap<String, String>, key: &'static str) -> (r: Result<
    UtcTimestamp,
    ContractParseError,
>)
    ensures
        match present(input_model(*inputs), key@) {
            None => r == Err::<UtcTimestamp, ContractParseError>(
                ContractParseError::MissingInput(key),
            ),
            Some(t) => match parsed_rfc3339(t) {
                Some(p) => r matches Ok(x) && x.seconds == p.0 && x.nanos == p.1,
                None => r matches Err(ContractParseError::InvalidDateTime { field, value }) && field
                    == key && value@ == t,
            },
        },
{
    let value = required_string(inputs, key)?;
    match parse_rfc3339(value.as_str()) {
        Some(t) => Ok(t),
        None => Err(ContractParseError::InvalidDateTime { field: key, value }),
    }
}

/// Reads a boolean word.
pub fn bool_word_of(value: &str) -> (r: Option<bool>)
    ensures
        r == bool_word(value@),
{
    let l = ascii_lowercase(value);
    let l = l.as_str();
    if str_eq(l, "true") || str_eq(l, "1") || str_eq(l, "yes") {
        Some(true)
    } else if str_eq(l, "false") || str_eq(l, "0") || str_eq(l, "no") {
        Some(false)
    } else {
        None
    }
}

/// The boolean under `key`, when present and written as a boolean word.
pub fn optional_bool_value(inputs: &HashMap<String, String>, key: &str) -> (r: Option<bool>)
    ensures
        r == present_bool(input_model(*inputs), key@),
{
    match optional_string(inputs, key) {
        Some(v) => bool_word_of(v.as_str()),
        None => None,
    }
}

/// The boolean under `key`, `false` when absent or not a boolean word.
pub fn optional_bool(inputs: &HashMap<String, String>, key: &str) -> (r: bool)
    ensures
        r == (present_bool(input_model(*inputs), key@) == Some(true)),
{
    match optional_bool_value(inputs, key) {
        Some(b) => b,
        None => false,
    }
}

/// The runtime scope named by `context_scope_id` and `resume_context`.
pub fn runtime_scope_from_inputs(inputs: &HashMap<String, String>) -> (r: RuntimeExecutionScope)
    ensures
        opt_text(r.context_scope_id) == present(input_model(*inputs), "context_scope_id"@),
        r.resume_context == (present_bool(input_model(*inputs), "resume_context"@) == Some(true)),
{
    RuntimeExecutionScope {
        context_scope_id: optional_string(inputs, "context_scope_id"),
        resume_context: optional_bool(inputs, "resume_context"),
    }
}

/// A payment status word: paid ones, pending ones, failed ones, or unknown.
pub open spec fn credit_status_word(s: Seq<char>) -> CreditPaymentStatus {
    let l = ascii_lower(s);
    if l == "confirmed"@ || l == "paid"@ || l == "settled"@ {
        CreditPaymentStatus::Confirmed
    } else if l == "pending"@ || l == "authorized"@ || l == "processing"@ {
        CreditPaymentStatus::Pending
    } else if l == "failed"@ || l == "declined"@ || l == "overdue"@ {
        CreditPaymentStatus::Failed
    } else {
        CreditPaymentStatus::Unknown
    }
}

/// The payment status of a top-up: `payment_confirmed` decides when it is a
/// boolean word; otherwise the `payment_status` word, unknown when absent.
pub open spec fn credit_status_of(m: Map<Seq<char>, Seq<char>>) -> CreditPaymentStatus {
    match present_bool(m, "payment_confirmed"@) {
        Some(true) => CreditPaymentStatus::Confirmed,
        Some(false) => CreditPaymentStatus::Pending,
        None => match present(m, "payment_status"@) {
            Some(s) => credit_status_word(s),
            None => CreditPaymentStatus::Unknown,
        },
    }
}

/// Reads a payment status word.
pub fn credit_status_from_word(value: &str) -> (r: CreditPaymentStatus)
    ensures
        r == credit_status_word(value@),
        ascii_lower(value@) == "confirmed"@ || ascii_lower(value@) == "paid"@ || ascii_lower(value@) == "settled"@
            ==> r == CreditPaymentStatus::Confirmed,
        ascii_lower(value@) == "pending"@ || ascii_lower(value@) == "authorized"@ || ascii_lower(value@)
            == "processing"@ ==> r == CreditPaymentStatus::Pending,
        ascii_lower(value@) == "failed"@ || ascii_lower(value@) == "declined"@ || ascii_lower(value@) == "overdue"@
            ==> r == CreditPaymentStatus::Failed,
{
    proof {
        law_payment_words(value@);
    }
    let l = ascii_lowercase(value);
    let l = l.as_str();
    if str_eq(l, "confirmed") || str_eq(l, "paid") || str_eq(l, "settled") {
        CreditPaymentStatus::Confirmed
    } else if str_eq(l, "pending") || str_eq(l, "authorized") || str_eq(l, "processing") {
        CreditPaymentStatus::Pending
    } else if str_eq(l, "failed") || str_eq(l, "declined") || str_eq(l, "overdue") {
        CreditPaymentStatus::Failed
    } else {
        CreditPaymentStatus::Unknown
    }
}

/// The payment status of a credit top-up read from its inputs.
pub fn credit_payment_status_from_inputs(inputs: &HashMap<String, String>) -> (r:
    CreditPaymentStatus)
    ensures
        r == credit_status_of(input_model(*inputs)),
{
    if let Some(confirmed) = optional_bool_value(inputs, "payment_confirmed") {
        return if confirmed {
            CreditPaymentStatus::Confirmed
        } else {
            CreditPaymentStatus::Pending
        };
    }
    match optional_string(inputs, "payment_status") {
        Some(s) => credit_status_from_word(s.as_str()),
        None => CreditPaymentStatus::Unknown,
    }
}

/// A subscription failure word, trimmed and case-folded.
pub open spec fn failure_status_word(s: Seq<char>) -> Option<SubscriptionFailureStatus> {
    let l = ascii_lower(trim(s));
    if l == "failed"@ || l == "declined"@ || l == "payment_failed"@ {
        Some(SubscriptionFailureStatus::Failed)
    } else if l == "overdue"@ || l == "past_due"@ {
        Some(SubscriptionFailureStatus::Overdue)
    } else {
        None
    }
}

/// Reads a subscription failure status; an unknown word is reported as
/// `InvalidInteger` for `payment_status`, carrying the text as given.
pub fn subscription_failure_status(value: String) -> (r: Result<
    SubscriptionFailureStatus,
    ContractParseError,
>)
    ensures
        match failure_status_word(value@) {
            Some(s) => r == Ok::<SubscriptionFailureStatus, ContractParseError>(s),
            None => r matches Err(ContractParseError::InvalidInteger { field, value: v }) && field@
                == "payment_status"@ && v@ == value@,
        },
{
    let l = ascii_lowercase(trim_str(value.as_str()));
    let l = l.as_str();
    if str_eq(l, "failed") || str_eq(l, "declined") || str_eq(l, "payment_failed") {
        Ok(SubscriptionFailureStatus::Failed)
    } else if str_eq(l, "overdue") || str_eq(l, "past_due") {
        Ok(SubscriptionFailureStatus::Overdue)
    } else {
        Err(ContractParseError::InvalidInteger { field: "payment_status", value })
    }
}


/// Every payment status reads back from its own name: a top-up whose only
/// input is `payment_status`, set to the status's name, has that status.
pub proof fn law_payment_status_round_trip(s: CreditPaymentStatus)
    ensures
        credit_status_of(no_inputs().insert("payment_status"@, credit_payment_status_name(s))) == s,
{
    reveal_strlit("payment_status");
    reveal_strlit("payment_confirmed");
    reveal_strlit("confirmed");
    reveal_strlit("pending");
    reveal_strlit("failed");
    reveal_strlit("unknown");
    reveal_strlit("paid");
    reveal_strlit("settled");
    reveal_strlit("authorized");
    reveal_strlit("processing");
    reveal_strlit("declined");
    reveal_strlit("overdue");
    let name = credit_payment_status_name(s);
    let m = no_inputs().insert("payment_status"@, name);
    assert(lower_word(name));
    lemma_lower_word_reads_as_itself(name);
    assert("payment_confirmed"@.len() != "payment_status"@.len());
    assert(!m.contains_key("payment_confirmed"@));
    assert(present(m, "payment_status"@) == Some(name));
}

/// How payment words read, in any ASCII case: "confirmed", "paid" and
/// "settled" confirm a payment; "pending", "authorized" and "processing"
/// leave it pending; "failed", "declined" and "overdue" fail it; two words
/// that differ only in case read alike.
pub proof fn law_payment_words(s: Seq<char>)
    ensures
        ascii_lower(s) == "confirmed"@ ==> credit_status_word(s) == CreditPaymentStatus::Confirmed,
        ascii_lower(s) == "paid"@ ==> credit_status_word(s) == CreditPaymentStatus::Confirmed,
        ascii_lower(s) == "settled"@ ==> credit_status_word(s) == CreditPaymentStatus::Confirmed,
        ascii_lower(s) == "pending"@ ==> credit_status_word(s) == CreditPaymentStatus::Pending,
        ascii_lower(s) == "authorized"@ ==> credit_status_word(s) == CreditPaymentStatus::Pending,
        ascii_lower(s) == "processing"@ ==> credit_status_word(s) == CreditPaymentStatus::Pending,
        ascii_lower(s) == "failed"@ ==> credit_status_word(s) == CreditPaymentStatus::Failed,
        ascii_lower(s) == "declined"@ ==> credit_status_word(s) == CreditPaymentStatus::Failed,
        ascii_lower(s) == "overdue"@ ==> credit_status_word(s) == CreditPaymentStatus::Failed,
        forall|t: Seq<char>| ascii_lower(t) == ascii_lower(s) ==> #[trigger] credit_status_word(t) == credit_status_word(s),
{
    reveal_strlit("confirmed");
    reveal_strlit("paid");
    reveal_strlit("settled");
    reveal_strlit("pending");
    reveal_strlit("authorized");
    reveal_strlit("processing");
    reveal_strlit("failed");
    reveal_strlit("declined");
    reveal_strlit("overdue");
    assert("pending"@[0] != "paid"@[1]);
    assert("authorized"@.len() == 10 && "processing"@.len() == 10);
    assert("authorized"@[0] != "processing"@[0]);
    assert("confirmed"@.len() == 9 && "paid"@.len() == 4 && "settled"@.len() == 7);
    assert("authorized"@ != "confirmed"@ && "authorized"@ != "paid"@ && "authorized"@ != "settled"@);
    assert("processing"@ != "confirmed"@ && "processing"@ != "paid"@ && "processing"@ != "settled"@);
    let early = seq!["confirmed"@, "paid"@, "settled"@, "pending"@, "authorized"@, "processing"@];
    assert forall|i: int| 0 <= i < 6 implies early[i] != "overdue"@ && early[i] != "failed"@ && early[i] != "declined"@ by {
        assert(early[i][0] != "overdue"@[0] && early[i][0] != "failed"@[0] && early[i][0] != "declined"@[0]);
    }
    assert(early[3] == "pending"@);
}

/// A top-up whose `payment_status` input is "confirmed", "paid" or
/// "settled", and which has no `payment_confirmed` input, is confirmed.
pub proof fn law_paid_top_up_confirmed(m: Map<Seq<char>, Seq<char>>, w: Seq<char>)
    requires
        !m.contains_key("payment_confirmed"@),
        m.contains_key("payment_status"@),
        m["payment_status"@] == w,
        w == "confirmed"@ || w == "paid"@ || w == "settled"@,
    ensures
        credit_status_of(m) == CreditPaymentStatus::Confirmed,
{
    reveal_strlit("confirmed");
    reveal_strlit("paid");
    reveal_strlit("settled");
    assert(lower_word(w));
    lemma_lower_word_reads_as_itself(w);
    assert(present(m, "payment_status"@) == Some(w));
}

/// Every subscription failure status reads back from its own name.
pub proof fn law_failure_status_round_trip(s: SubscriptionFailureStatus)
    ensures
        failure_status_word(subscription_failure_status_name(s)) == Some(s),
{
    reveal_strlit("failed");
    reveal_strlit("overdue");
    reveal_strlit("declined");
    reveal_strlit("payment_failed");
    reveal_strlit("past_due");
    let name = subscription_failure_status_name(s);
    assert(lower_word(name));
    lemma_lower_word_reads_as_itself(name);
}

// ---------------------------------------------------------------- truth inputs

/// The default runtime scope of a truth run keyed by a record:
/// `truth:{truth_key}:{label}:{id}`.
pub open spec fn default_scope_id(truth_key: Seq<char>, label: Seq<char>, id: Seq<char>) -> Seq<char> {
    "truth:"@ + truth_key + ":"@ + label + ":"@ + id
}

fn scope_id_text(truth_key: &str, label: &str, id: &str) -> (r: String)
    ensures
        r@ == default_scope_id(truth_key@, label@, id@),
{
    let mut r = concat5("truth:", truth_key, ":", label, ":");
    r.append(id);
    proof {
        assert(r@ =~= default_scope_id(truth_key@, label@, id@));
    }
    r
}

/// The scope id a truth run uses: the configured one, else the default.
pub open spec fn scope_or(scope: RuntimeExecutionScope, default: Seq<char>) -> Seq<char> {
    match scope.context_scope_id {
        Some(s) => s@,
        None => default,
    }
}

/// The inputs of `activate-subscription`.
#[derive(Debug, Clone)]
pub struct ActivateSubscriptionInput {
    pub subscription_id: u128,
    pub catalog_item_id: Option<u128>,
    pub opening_balance_minor: Option<i64>,
    pub opening_balance_currency_code: Option<String>,
    pub force_manual_review: bool,
    pub manual_review_reason: Option<String>,
    pub owner_user_id: Option<String>,
    pub workflow_title: Option<String>,
    pub scope: RuntimeExecutionScope,
}

impl ActivateSubscriptionInput {
    pub fn truth_key(&self) -> (r: &'static str)
        ensures
            r@ == truth_key_of(BillingEventKind::SubscriptionActivationRequested),
    {
        BillingEventKind::SubscriptionActivationRequested.truth_key()
    }

    /// `truth:activate-subscription:subscription:{subscription_id}` unless
    /// the scope names one.
    pub fn context_scope_id(&self) -> (r: String)
        ensures
            r@ == scope_or(
                self.scope,
                default_scope_id(
                    truth_key_of(BillingEventKind::SubscriptionActivationRequested),
                    "subscription"@,
                    uuid_hyphenated(self.subscription_id),
                ),
            ),
    {
        match &self.scope.context_scope_id {
            Some(s) => s.clone(),
            None => scope_id_text(
                self.truth_key(),
                "subscription",
                uuid_text(self.subscription_id).as_str(),
            ),
        }
    }

    /// Reads the inputs; the first field that fails decides the error.
    pub fn from_inputs(inputs: &HashMap<String, String>) -> (r: Result<Self, ContractParseError>)
        ensures
            ({
                let m = input_model(*inputs);
                match r {
                    Ok(v) => {
                        &&& required_uuid_outcome(m, "subscription_id"@, Ok(v.subscription_id))
                        &&& optional_uuid_outcome(m, "catalog_item_id"@, Ok(v.catalog_item_id))
                        &&& optional_i64_outcome(
                            m,
                            "opening_balance_minor"@,
                            Ok(v.opening_balance_minor),
                        )
                        &&& opt_text(v.opening_balance_currency_code) == present(
                            m,
                            "opening_balance_currency_code"@,
                        )
                        &&& v.force_manual_review == (present_bool(m, "force_manual_review"@)
                            == Some(true))
                        &&& opt_text(v.manual_review_reason) == present(m, "manual_review_reason"@)
                        &&& opt_text(v.owner_user_id) == present(m, "owner_user_id"@)
                        &&& opt_text(v.workflow_title) == present(m, "workflow_title"@)
                        &&& opt_text(v.scope.context_scope_id) == present(m, "context_scope_id"@)
                        &&& v.scope.resume_context == (present_bool(m, "resume_context"@) == Some(
                            true,
                        ))
                    },
                    Err(e) => if !uuid_reads(m, "subscription_id"@) {
                        required_uuid_outcome(m, "subscription_id"@, Err(e))
                    } else if !optional_uuid_reads(m, "catalog_item_id"@) {
                        optional_uuid_outcome(m, "catalog_item_id"@, Err(e))
                    } else {
                        !optional_i64_reads(m, "opening_balance_minor"@) && optional_i64_outcome(
                            m,
                            "opening_balance_minor"@,
                            Err(e),
                        )
                    },
                }
            }),
    {
        let subscription_id = required_uuid(inputs, "subscription_id")?;
        let catalog_item_id = optional_uuid(inputs, "catalog_item_id")?;
        let opening_balance_minor = optional_i64(inputs, "opening_balance_minor")?;
        Ok(ActivateSubscriptionInput {
            subscription_id,
            catalog_item_id,
            opening_balance_minor,
            opening_balance_currency_code: optional_string(inputs, "opening_balance_currency_code"),
            force_manual_review: optional_bool(inputs, "force_manual_review"),
            manual_review_reason: optional_string(inputs, "manual_review_reason"),
            owner_user_id: optional_string(inputs, "owner_user_id"),
            workflow_title: optional_string(inputs, "workflow_title"),
            scope: runtime_scope_from_inputs(inputs),
        })
    }
}

/// The inputs of `refill-prepaid-ai-credits`.
#[derive(Debug, Clone)]
pub struct RefillPrepaidAiCreditsInput {
    pub subscription_id: u128,
    pub top_up_amount_minor: i64,
    pub payment_reference: String,
    pub payment_status: CreditPaymentStatus,
    pub risk_signal: bool,
    pub force_manual_review: bool,
    pub manual_review_reason: Option<String>,
    pub scope: RuntimeExecutionScope,
}

impl RefillPrepaidAiCreditsInput {
    pub fn truth_key(&self) -> (r: &'static str)
        ensures
            r@ == truth_key_of(BillingEventKind::PrepaidTopUpSettled),
    {
        BillingEventKind::PrepaidTopUpSettled.truth_key()
    }

    /// `truth:refill-prepaid-ai-credits:payment:{payment_reference}` unless
    /// the scope names one.
    pub fn context_scope_id(&self) -> (r: String)
        ensures
            r@ == scope_or(
                self.scope,
                default_scope_id(
                    truth_key_of(BillingEventKind::PrepaidTopUpSettled),
                    "payment"@,
                    self.payment_reference@,
                ),
            ),
    {
        match &self.scope.context_scope_id {
            Some(s) => s.clone(),
            None => scope_id_text(self.truth_key(), "payment", self.payment_reference.as_str()),
        }
    }

    /// Reads the inputs; the amount is `top_up_amount_minor`, or
    /// `amount_minor` where that one does not read.
    pub fn from_inputs(inputs: &HashMap<String, String>) -> (r: Result<Self, ContractParseError>)
        ensures
            ({
                let m = input_model(*inputs);
                match r {
                    Ok(v) => {
                        &&& required_uuid_outcome(m, "subscription_id"@, Ok(v.subscription_id))
                        &&& if i64_reads(m, "top_up_amount_minor"@) {
                            required_i64_outcome(
                                m,
                                "top_up_amount_minor"@,
                                Ok(v.top_up_amount_minor),
                            )
                        } else {
                            required_i64_outcome(m, "amount_minor"@, Ok(v.top_up_amount_minor))
                        }
                        &&& present(m, "payment_reference"@) == Some(v.payment_reference@)
                        &&& v.payment_status == credit_status_of(m)
                        &&& v.risk_signal == (present_bool(m, "risk_signal"@) == Some(true))
                        &&& v.force_manual_review == (present_bool(m, "force_manual_review"@)
                            == Some(true))
                        &&& opt_text(v.manual_review_reason) == present(m, "manual_review_reason"@)
                        &&& opt_text(v.scope.context_scope_id) == present(m, "context_scope_id"@)
                        &&& v.scope.resume_context == (present_bool(m, "resume_context"@) == Some(
                            true,
                        ))
                    },
                    Err(e) => if !uuid_reads(m, "subscription_id"@) {
                        required_uuid_outcome(m, "subscription_id"@, Err(e))
                    } else if !i64_reads(m, "top_up_amount_minor"@) && !i64_reads(
                        m,
                        "amount_minor"@,
                    ) {
                        required_i64_outcome(m, "amount_minor"@, Err(e))
                    } else {
                        present(m, "payment_reference"@) is None && required_string_outcome(
                            m,
                            "payment_reference"@,
                            Err(e),
                        )
                    },
                }
            }),
    {
        let subscription_id = required_uuid(inputs, "subscription_id")?;
        let top_up_amount_minor = match required_i64(inputs, "top_up_amount_minor") {
            Ok(v) => v,
            Err(_) => required_i64(inputs, "amount_minor")?,
        };
        let payment_reference = required_string(inputs, "payment_reference")?;
        Ok(RefillPrepaidAiCreditsInput {
            subscription_id,
            top_up_amount_minor,
            payment_reference,
            payment_status: credit_payment_status_from_inputs(inputs),
            risk_signal: optional_bool(inputs, "risk_signal"),
            force_manual_review: optional_bool(inputs, "force_manual_review"),
            manual_review_reason: optional_string(inputs, "manual_review_reason"),
            scope: runtime_scope_from_inputs(inputs),
        })
    }
}

/// The inputs of `suspend-service-on-payment-failure`.
#[derive(Debug, Clone)]
pub struct SuspendServiceOnPaymentFailureInput {
    pub subscription_id: u128,
    pub payment_status: SubscriptionFailureStatus,
    pub days_overdue: i64,
    pub grace_days: Option<i64>,
    pub strategic_account: Option<bool>,
    pub force_manual_review: bool,
    pub manual_review_reason: Option<String>,
    pub scope: RuntimeExecutionScope,
}

impl SuspendServiceOnPaymentFailureInput {
    pub fn truth_key(&self) -> (r: &'static str)
        ensures
            r@ == truth_key_of(BillingEventKind::SubscriptionPaymentFailed),
    {
        BillingEventKind::SubscriptionPaymentFailed.truth_key()
    }

    /// `truth:suspend-service-on-payment-failure:subscription:{id}` unless
    /// the scope names one.
    pub fn context_scope_id(&self) -> (r: String)
        ensures
            r@ == scope_or(
                self.scope,
                default_scope_id(
                    truth_key_of(BillingEventKind::SubscriptionPaymentFailed),
                    "subscription"@,
                    uuid_hyphenated(self.subscription_id),
                ),
            ),
    {
        match &self.scope.context_scope_id {
            Some(s) => s.clone(),
            None => scope_id_text(
                self.truth_key(),
                "subscription",
                uuid_text(self.subscription_id).as_str(),
            ),
        }
    }

    /// Reads the inputs; `days_overdue` defaults to 0 and is never negative.
    pub fn from_inputs(inputs: &HashMap<String, String>) -> (r: Result<Self, ContractParseError>)
        ensures
            ({
                let m = input_model(*inputs);
                match r {
                    Ok(v) => {
                        &&& required_uuid_outcome(m, "subscription_id"@, Ok(v.subscription_id))
                        &&& present(m, "payment_status"@) matches Some(t) && failure_status_word(t)
                            == Some(v.payment_status)
                        &&& v.days_overdue == (match present(m, "days_overdue"@) {
                            Some(t) => if parse_i64(t).unwrap() > 0 {
                                parse_i64(t).unwrap()
                            } else {
                                0
                            },
                            None => 0,
                        })
                        &&& optional_i64_reads(m, "days_overdue"@)
                        &&& optional_i64_outcome(m, "grace_days"@, Ok(v.grace_days))
                        &&& v.strategic_account == present_bool(m, "strategic_account"@)
                        &&& v.force_manual_review == (present_bool(m, "force_manual_review"@)
                            == Some(true))
                        &&& opt_text(v.manual_review_reason) == present(m, "manual_review_reason"@)
                        &&& opt_text(v.scope.context_scope_id) == present(m, "context_scope_id"@)
                        &&& v.scope.resume_context == (present_bool(m, "resume_context"@) == Some(
                            true,
                        ))
                    },
                    Err(e) => if !uuid_reads(m, "subscription_id"@) {
                        required_uuid_outcome(m, "subscription_id"@, Err(e))
                    } else if present(m, "payment_status"@) is None {
                        required_string_outcome(m, "payment_status"@, Err(e))
                    } else if failure_status_word(present(m, "payment_status"@).unwrap()) is None {
                        e matches ContractParseError::InvalidInteger { field, value } && field@
                            == "payment_status"@ && value@ == present(m, "payment_status"@).unwrap()
                    } else if !optional_i64_reads(m, "days_overdue"@) {
                        optional_i64_outcome(m, "days_overdue"@, Err(e))
                    } else {
                        !optional_i64_reads(m, "grace_days"@) && optional_i64_outcome(
                            m,
                            "grace_days"@,
                            Err(e),
                        )
                    },
                }
            }),
    {
        let subscription_id = required_uuid(inputs, "subscription_id")?;
        let status_text = required_string(inputs, "payment_status")?;
        let payment_status = subscription_failure_status(status_text)?;
        let days = optional_i64(inputs, "days_overdue")?;
        let days_overdue = match days {
            Some(d) => if d > 0 {
                d
            } else {
                0
            },
            None => 0,
        };
        let grace_days = optional_i64(inputs, "grace_days")?;
        Ok(SuspendServiceOnPaymentFailureInput {
            subscription_id,
            payment_status,
            days_overdue,
            grace_days,
            strategic_account: optional_bool_value(inputs, "strategic_account"),
            force_manual_review: optional_bool(inputs, "force_manual_review"),
            manual_review_reason: optional_string(inputs, "manual_review_reason"),
            scope: runtime_scope_from_inputs(inputs),
        })
    }
}

/// The inputs of `reconcile-model-usage-against-customer-ledger`.
#[derive(Debug, Clone)]
pub struct ReconcileModelUsageAgainstCustomerLedgerInput {
    pub subscription_id: u128,
    pub usage_burn_minor: i64,
    pub provider_settled_minor: i64,
    pub provider_reference: Option<String>,
    pub provider_name: Option<String>,
    pub provider_status: Option<String>,
    pub threshold_minor: Option<i64>,
    pub meter_name: Option<String>,
    pub period_label: Option<String>,
    pub scope: RuntimeExecutionScope,
}

impl ReconcileModelUsageAgainstCustomerLedgerInput {
    pub fn truth_key(&self) -> (r: &'static str)
        ensures
            r@ == truth_key_of(BillingEventKind::LedgerReconciliationRequested),
    {
        BillingEventKind::LedgerReconciliationRequested.truth_key()
    }

    /// `truth:reconcile-model-usage-against-customer-ledger:subscription:{id}`
    /// unless the scope names one.
    pub fn context_scope_id(&self) -> (r: String)
        ensures
            r@ == scope_or(
                self.scope,
                default_scope_id(
                    truth_key_of(BillingEventKind::LedgerReconciliationRequested),
                    "subscription"@,
                    uuid_hyphenated(self.subscription_id),
                ),
            ),
    {
        match &self.scope.context_scope_id {
            Some(s) => s.clone(),
            None => scope_id_text(
                self.truth_key(),
                "subscription",
                uuid_text(self.subscription_id).as_str(),
            ),
        }
    }

    /// Reads the inputs; the first field that fails decides the error.
    pub fn from_inputs(inputs: &HashMap<String, String>) -> (r: Result<Self, ContractParseError>)
        ensures
            ({
                let m = input_model(*inputs);
                match r {
                    Ok(v) => {
                        &&& required_uuid_outcome(m, "subscription_id"@, Ok(v.subscription_id))
                        &&& required_i64_outcome(m, "usage_burn_minor"@, Ok(v.usage_burn_minor))
                        &&& required_i64_outcome(
                            m,
                            "provider_settled_minor"@,
                            Ok(v.provider_settled_minor),
                        )
                        &&& opt_text(v.provider_reference) == present(m, "provider_reference"@)
                        &&& opt_text(v.provider_name) == present(m, "provider_name"@)
                        &&& opt_text(v.provider_status) == present(m, "provider_status"@)
                        &&& optional_i64_outcome(m, "threshold_minor"@, Ok(v.threshold_minor))
                        &&& opt_text(v.meter_name) == present(m, "meter_name"@)
                        &&& opt_text(v.period_label) == present(m, "period_label"@)
                        &&& opt_text(v.scope.context_scope_id) == present(m, "context_scope_id"@)
                        &&& v.scope.resume_context == (present_bool(m, "resume_context"@) == Some(
                            true,
                        ))
                    },
                    Err(e) => if !uuid_reads(m, "subscription_id"@) {
                        required_uuid_outcome(m, "subscription_id"@, Err(e))
                    } else if !i64_reads(m, "usage_burn_minor"@) {
                        required_i64_outcome(m, "usage_burn_minor"@, Err(e))
                    } else if !i64_reads(m, "provider_settled_minor"@) {
                        required_i64_outcome(m, "provider_settled_minor"@, Err(e))
                    } else {
                        !optional_i64_reads(m, "threshold_minor"@) && optional_i64_outcome(
                            m,
                            "threshold_minor"@,
                            Err(e),
                        )
                    },
                }
            }),
    {
        let subscription_id = required_uuid(inputs, "subscription_id")?;
        let usage_burn_minor = required_i64(inputs, "usage_burn_minor")?;
        let provider_settled_minor = required_i64(inputs, "provider_settled_minor")?;
        let provider_reference = optional_string(inputs, "provider_reference");
        let provider_name = optional_string(inputs, "provider_name");
        let provider_status = optional_string(inputs, "provider_status");
        let threshold_minor = optional_i64(inputs, "threshold_minor")?;
        Ok(ReconcileModelUsageAgainstCustomerLedgerInput {
            subscription_id,
            usage_burn_minor,
            provider_settled_minor,
            provider_reference,
            provider_name,
            provider_status,
            threshold_minor,
            meter_name: optional_string(inputs, "meter_name"),
            period_label: optional_string(inputs, "period_label"),
            scope: runtime_scope_from_inputs(inputs),
        })
    }
}

/// A billing truth's inputs, tagged by the truth they execute.
#[derive(Debug, Clone)]
pub enum BillingTruthPayload {
    ActivateSubscription(ActivateSubscriptionInput),
    RefillPrepaidAiCredits(RefillPrepaidAiCreditsInput),
    SuspendServiceOnPaymentFailure(SuspendServiceOnPaymentFailureInput),
    ReconcileModelUsageAgainstCustomerLedger(ReconcileModelUsageAgainstCustomerLedgerInput),
}

/// The event kind whose truth a payload executes.
pub open spec fn payload_kind(p: BillingTruthPayload) -> BillingEventKind {
    match p {
        BillingTruthPayload::ActivateSubscription(_) => BillingEventKind::SubscriptionActivationRequested,
        BillingTruthPayload::RefillPrepaidAiCredits(_) => BillingEventKind::PrepaidTopUpSettled,
        BillingTruthPayload::SuspendServiceOnPaymentFailure(_) => BillingEventKind::SubscriptionPaymentFailed,
        BillingTruthPayload::ReconcileModelUsageAgainstCustomerLedger(_) => BillingEventKind::LedgerReconciliationRequested,
    }
}

/// The runtime scope a payload's truth runs in.
pub open spec fn payload_scope_id(p: BillingTruthPayload) -> Seq<char> {
    match p {
        BillingTruthPayload::ActivateSubscription(i) => scope_or(
            i.scope,
            default_scope_id(truth_key_of(payload_kind(p)), "subscription"@, uuid_hyphenated(i.subscription_id)),
        ),
        BillingTruthPayload::RefillPrepaidAiCredits(i) => scope_or(
            i.scope,
            default_scope_id(truth_key_of(payload_kind(p)), "payment"@, i.payment_reference@),
        ),
        BillingTruthPayload::SuspendServiceOnPaymentFailure(i) => scope_or(
            i.scope,
            default_scope_id(truth_key_of(payload_kind(p)), "subscription"@, uuid_hyphenated(i.subscription_id)),
        ),
        BillingTruthPayload::ReconcileModelUsageAgainstCustomerLedger(i) => scope_or(
            i.scope,
            default_scope_id(truth_key_of(payload_kind(p)), "subscription"@, uuid_hyphenated(i.subscription_id)),
        ),
    }
}

impl BillingTruthPayload {
    pub fn truth_key(&self) -> (r: &'static str)
        ensures
            r@ == truth_key_of(payload_kind(*self)),
    {
        match self {
            BillingTruthPayload::ActivateSubscription(i) => i.truth_key(),
            BillingTruthPayload::RefillPrepaidAiCredits(i) => i.truth_key(),
            BillingTruthPayload::SuspendServiceOnPaymentFailure(i) => i.truth_key(),
            BillingTruthPayload::ReconcileModelUsageAgainstCustomerLedger(i) => i.truth_key(),
        }
    }

    pub fn context_scope_id(&self) -> (r: String)
        ensures
            r@ == payload_scope_id(*self),
    {
        match self {
            BillingTruthPayload::ActivateSubscription(i) => i.context_scope_id(),
            BillingTruthPayload::RefillPrepaidAiCredits(i) => i.context_scope_id(),
            BillingTruthPayload::SuspendServiceOnPaymentFailure(i) => i.context_scope_id(),
            BillingTruthPayload::ReconcileModelUsageAgainstCustomerLedger(i) => i.context_scope_id(),
        }
    }

    pub fn resume_context(&self) -> (r: bool)
        ensures
            r == (match *self {
                BillingTruthPayload::ActivateSubscription(i) => i.scope.resume_context,
                BillingTruthPayload::RefillPrepaidAiCredits(i) => i.scope.resume_context,
                BillingTruthPayload::SuspendServiceOnPaymentFailure(i) => i.scope.resume_context,
                BillingTruthPayload::ReconcileModelUsageAgainstCustomerLedger(i) => i.scope.resume_context,
            }),
    {
        match self {
            BillingTruthPayload::ActivateSubscription(i) => i.scope.resume_context,
            BillingTruthPayload::RefillPrepaidAiCredits(i) => i.scope.resume_context,
            BillingTruthPayload::SuspendServiceOnPaymentFailure(i) => i.scope.resume_context,
            BillingTruthPayload::ReconcileModelUsageAgainstCustomerLedger(i) => i.scope.resume_context,
        }
    }
}

/// A billing event in the shared normalized form.
#[derive(Debug, Clone)]
pub struct NormalizedBillingEvent {
    pub source: String,
    pub event_id: String,
    pub event_kind: BillingEventKind,
    pub idempotency_key: String,
    pub persist_projection: bool,
    pub received_at: UtcTimestamp,
    pub payload: BillingTruthPayload,
}

impl NormalizedBillingEvent {
    pub fn truth_key(&self) -> (r: &'static str)
        ensures
            r@ == truth_key_of(payload_kind(self.payload)),
    {
        self.payload.truth_key()
    }

    pub fn context_scope_id(&self) -> (r: String)
        ensures
            r@ == payload_scope_id(self.payload),
    {
        self.payload.context_scope_id()
    }
}

} // verus!
