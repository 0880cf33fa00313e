//! reconcile-model-usage-against-customer-ledger: compares what a customer
//! burned in model usage, what the payment provider settled and what the
//! credit entitlement holds against the customer's ledger, and closes the
//! period clean, routes small drift for investigation, or sends large drift
//! to a person.
use std::collections::HashMap;
use vstd::prelude::*;
use crate::ids::{parsed_uuid, uuid_hyphenated, uuid_text};
use crate::inputs::{input_model, present};
use crate::runtime::{Status, StatusCode};
use crate::text::{concat2, concat3, i64_text, int_decimal, opt_text, owned};
use crate::truths::common::{
    invalid_argument, invalid_uuid_message, missing_input_message, optional_i64, optional_input, present_i64,
    required_uuid,
};

verus! {

/// The drift above which a person decides, where the run names no
/// threshold.
pub const DEFAULT_THRESHOLD_MINOR: i64 = 10_000;

/// What the truth is run with.
#[derive(Debug, Clone)]
pub struct ReconcileModelUsageAgainstCustomerLedgerInput {
    pub subscription_id: u128,
    pub threshold_minor: Option<i64>,
    pub usage_burn_minor: Option<i64>,
    pub meter_name: Option<String>,
    pub period_label: Option<String>,
    pub provider_settled_minor: Option<i64>,
    pub provider_reference: Option<String>,
    pub provider_name: Option<String>,
    pub provider_status: Option<String>,
}

/// An optional integer input read as the run reads it.
pub open spec fn int_input(v: Option<i64>, m: Map<Seq<char>, Seq<char>>, k: Seq<char>) -> bool {
    match v {
        Some(x) => present_i64(m, k) == Some(x as int),
        None => present_i64(m, k) is None,
    }
}

impl ReconcileModelUsageAgainstCustomerLedgerInput {
    /// Reads the input: the subscription id (a UUID) is required; the rest
    /// is optional, an integer that does not read as one being ignored.
    pub fn from_map(inputs: &HashMap<String, String>) -> (r: Result<Self, Status>)
        ensures
            ({
                let m = input_model(*inputs);
                match present(m, "subscription_id"@) {
                    None => r matches Err(s) && invalid_argument(s, missing_input_message("subscription_id"@)),
                    Some(t) => match parsed_uuid(t) {
                        None => r matches Err(s) && invalid_argument(s, invalid_uuid_message("subscription_id"@, t)),
                        Some(id) => r matches Ok(i) && {
                            &&& i.subscription_id == id
                            &&& int_input(i.threshold_minor, m, "threshold_minor"@)
                            &&& int_input(i.usage_burn_minor, m, "usage_burn_minor"@)
                            &&& opt_text(i.meter_name) == present(m, "meter_name"@)
                            &&& opt_text(i.period_label) == present(m, "period_label"@)
                            &&& int_input(i.provider_settled_minor, m, "provider_settled_minor"@)
                            &&& opt_text(i.provider_reference) == present(m, "provider_reference"@)
                            &&& opt_text(i.provider_name) == present(m, "provider_name"@)
                            &&& opt_text(i.provider_status) == present(m, "provider_status"@)
                        },
                    },
                }
            }),
    {
        let subscription_id = required_uuid(inputs, "subscription_id")?;
        Ok(
            ReconcileModelUsageAgainstCustomerLedgerInput {
                subscription_id,
                threshold_minor: optional_i64(inputs, "threshold_minor"),
                usage_burn_minor: optional_i64(inputs, "usage_burn_minor"),
                meter_name: optional_input(inputs, "meter_name"),
                period_label: optional_input(inputs, "period_label"),
                provider_settled_minor: optional_i64(inputs, "provider_settled_minor"),
                provider_reference: optional_input(inputs, "provider_reference"),
                provider_name: optional_input(inputs, "provider_name"),
                provider_status: optional_input(inputs, "provider_status"),
            },
        )
    }
}

fn text_or(value: &Option<String>, default: &str) -> (r: String)
    ensures
        r@ == match *value {
            Some(v) => v@,
            None => default@,
        },
{
    match value {
        Some(v) => v.clone(),
        None => owned(default),
    }
}

/// The usage burned in the period.
#[derive(Debug, Clone)]
pub struct UsageSnapshot {
    pub burn_minor: i64,
    pub meter_name: String,
    pub period_label: String,
}

/// What the payment provider settled.
#[derive(Debug, Clone)]
pub struct ProviderBillingSnapshot {
    pub settled_minor: i64,
    pub provider_reference: String,
    pub provider_name: String,
    pub status: String,
}

/// The usage of the period: a burn that must be given and not negative; the
/// meter (`model-token-usage` by default) and period (`current-period` by
/// default).
pub fn load_usage(inputs: &ReconcileModelUsageAgainstCustomerLedgerInput) -> (r: Result<UsageSnapshot, Status>)
    ensures
        match inputs.usage_burn_minor {
            Some(b) => if b >= 0 {
                r matches Ok(u) && u.burn_minor == b && u.meter_name@ == match inputs.meter_name {
                    Some(v) => v@,
                    None => "model-token-usage"@,
                } && u.period_label@ == match inputs.period_label {
                    Some(v) => v@,
                    None => "current-period"@,
                }
            } else {
                r matches Err(s) && invalid_argument(s, "usage_burn_minor must be a non-negative integer"@)
            },
            None => r matches Err(s) && invalid_argument(s, "usage_burn_minor must be a non-negative integer"@),
        },
{
    let burn = match inputs.usage_burn_minor {
        Some(b) => b,
        None => -1,
    };
    if burn < 0 {
        return Err(
            Status {
                code: StatusCode::InvalidArgument,
                message: owned("usage_burn_minor must be a non-negative integer"),
            },
        );
    }
    Ok(
        UsageSnapshot {
            burn_minor: burn,
            meter_name: text_or(&inputs.meter_name, "model-token-usage"),
            period_label: text_or(&inputs.period_label, "current-period"),
        },
    )
}

/// What the provider settled: an amount that must be given and not
/// negative; the reference (`provider-reconciliation`), provider (`stripe`)
/// and status (`settled`) by default.
pub fn load_provider_billing(inputs: &ReconcileModelUsageAgainstCustomerLedgerInput) -> (r: Result<ProviderBillingSnapshot, Status>)
    ensures
        match inputs.provider_settled_minor {
            Some(v) => if v >= 0 {
                r matches Ok(p) && p.settled_minor == v && p.provider_reference@ == match inputs.provider_reference {
                    Some(x) => x@,
                    None => "provider-reconciliation"@,
                } && p.provider_name@ == match inputs.provider_name {
                    Some(x) => x@,
                    None => "stripe"@,
                } && p.status@ == match inputs.provider_status {
                    Some(x) => x@,
                    None => "settled"@,
                }
            } else {
                r matches Err(s) && invalid_argument(s, "provider_settled_minor must be a non-negative integer"@)
            },
            None => r matches Err(s) && invalid_argument(s, "provider_settled_minor must be a non-negative integer"@),
        },
{
    let settled = match inputs.provider_settled_minor {
        Some(v) => v,
        None => -1,
    };
    if settled < 0 {
        return Err(
            Status {
                code: StatusCode::InvalidArgument,
                message: owned("provider_settled_minor must be a non-negative integer"),
            },
        );
    }
    Ok(
        ProviderBillingSnapshot {
            settled_minor: settled,
            provider_reference: text_or(&inputs.provider_reference, "provider-reconciliation"),
            provider_name: text_or(&inputs.provider_name, "stripe"),
            status: text_or(&inputs.provider_status, "settled"),
        },
    )
}

/// The kinds of ledger entries.
#[derive(Debug, Clone, Copy, PartialEq, Eq, Structural)]
pub enum LedgerEntryKind {
    OpeningBalance,
    CreditGrant,
    Debit,
    Adjustment,
}

/// A ledger entry, as far as reconciliation reads it.
#[derive(Debug, Clone, Copy)]
pub struct LedgerEntryRecord {
    pub subscription_id: u128,
    pub kind: LedgerEntryKind,
    pub amount_minor: i64,
}

/// The ledger of a subscription, summed by kind.
#[derive(Debug, Clone, Copy, PartialEq, Eq, Structural)]
pub struct LedgerSnapshot {
    pub opening_balance_minor: i64,
    pub credit_grants_minor: i64,
    pub debits_minor: i64,
    pub adjustments_minor: i64,
}

/// The sum of the first `n` entries of one subscription and one kind.
pub open spec fn kind_sum(entries: Seq<LedgerEntryRecord>, subscription_id: u128, kind: LedgerEntryKind, n: int) -> int
    decreases n,
{
    if n <= 0 {
        0
    } else {
        kind_sum(entries, subscription_id, kind, n - 1) + if entries[n - 1].subscription_id == subscription_id
            && entries[n - 1].kind == kind {
            entries[n - 1].amount_minor as int
        } else {
            0
        }
    }
}

/// Every running sum of one kind stays within `i64`.
pub open spec fn sums_fit(entries: Seq<LedgerEntryRecord>, subscription_id: u128, kind: LedgerEntryKind) -> bool {
    forall|n: int| 0 <= n <= entries.len() ==> i64::MIN <= #[trigger] kind_sum(entries, subscription_id, kind, n) <= i64::MAX
}

/// The ledger of one subscription: opening balances, credit grants, debits
/// and adjustments, each summed over the subscription's entries.
pub fn ledger_snapshot(entries: &Vec<LedgerEntryRecord>, subscription_id: u128) -> (r: LedgerSnapshot)
    requires
        sums_fit(entries@, subscription_id, LedgerEntryKind::OpeningBalance),
        sums_fit(entries@, subscription_id, LedgerEntryKind::CreditGrant),
        sums_fit(entries@, subscription_id, LedgerEntryKind::Debit),
        sums_fit(entries@, subscription_id, LedgerEntryKind::Adjustment),
    ensures
        r.opening_balance_minor == kind_sum(entries@, subscription_id, LedgerEntryKind::OpeningBalance, entries@.len() as int),
        r.credit_grants_minor == kind_sum(entries@, subscription_id, LedgerEntryKind::CreditGrant, entries@.len() as int),
        r.debits_minor == kind_sum(entries@, subscription_id, LedgerEntryKind::Debit, entries@.len() as int),
        r.adjustments_minor == kind_sum(entries@, subscription_id, LedgerEntryKind::Adjustment, entries@.len() as int),
{
    let mut opening: i64 = 0;
    let mut grants: i64 = 0;
    let mut debits: i64 = 0;
    let mut adjustments: i64 = 0;
    let n = entries.len();
    let mut i: usize = 0;
    while i < n
        invariant
            n == entries@.len(),
            i <= n,
            sums_fit(entries@, subscription_id, LedgerEntryKind::OpeningBalance),
            sums_fit(entries@, subscription_id, LedgerEntryKind::CreditGrant),
            sums_fit(entries@, subscription_id, LedgerEntryKind::Debit),
            sums_fit(entries@, subscription_id, LedgerEntryKind::Adjustment),
            opening == kind_sum(entries@, subscription_id, LedgerEntryKind::OpeningBalance, i as int),
            grants == kind_sum(entries@, subscription_id, LedgerEntryKind::CreditGrant, i as int),
            debits == kind_sum(entries@, subscription_id, LedgerEntryKind::Debit, i as int),
            adjustments == kind_sum(entries@, subscription_id, LedgerEntryKind::Adjustment, i as int),
        decreases n - i,
    {
        let e = entries[i];
        proof {
            assert(i64::MIN <= kind_sum(entries@, subscription_id, LedgerEntryKind::OpeningBalance, i + 1) <= i64::MAX);
            assert(i64::MIN <= kind_sum(entries@, subscription_id, LedgerEntryKind::CreditGrant, i + 1) <= i64::MAX);
            assert(i64::MIN <= kind_sum(entries@, subscription_id, LedgerEntryKind::Debit, i + 1) <= i64::MAX);
            assert(i64::MIN <= kind_sum(entries@, subscription_id, LedgerEntryKind::Adjustment, i + 1) <= i64::MAX);
        }
        if e.subscription_id == subscription_id {
            match e.kind {
                LedgerEntryKind::OpeningBalance => {
                    opening = opening + e.amount_minor;
                },
                LedgerEntryKind::CreditGrant => {
                    grants = grants + e.amount_minor;
                },
                LedgerEntryKind::Debit => {
                    debits = debits + e.amount_minor;
                },
                LedgerEntryKind::Adjustment => {
                    adjustments = adjustments + e.amount_minor;
                },
            }
        }
        i = i + 1;
    }
    LedgerSnapshot { opening_balance_minor: opening, credit_grants_minor: grants, debits_minor: debits, adjustments_minor: adjustments }
}

/// An entitlement value, as far as reconciliation reads it.
#[derive(Debug, Clone, PartialEq, Eq)]
pub enum EntitlementReading {
    /// The subscription has no such entitlement.
    Missing,
    /// A balance in credits.
    Credits(i64),
    /// A text value.
    Text(String),
    /// Any other kind of value.
    Other,
}

/// The credit balance and service access of a subscription.
#[derive(Debug, Clone)]
pub struct EntitlementSnapshot {
    pub credit_balance_minor: i64,
    pub service_access_state: String,
}

/// The entitlements of a subscription: a credit balance in credits is
/// required; the service access state is its text value, `active` by
/// default.
pub fn entitlement_snapshot(credit_balance: &EntitlementReading, service_access: &EntitlementReading) -> (r: Result<EntitlementSnapshot, Status>)
    ensures
        match *credit_balance {
            EntitlementReading::Missing => r matches Err(s) && s.code == StatusCode::FailedPrecondition && s.message@
                == "reconciliation requires a credit balance entitlement"@,
            EntitlementReading::Credits(b) => r matches Ok(e) && e.credit_balance_minor == b
                && e.service_access_state@ == match *service_access {
                EntitlementReading::Text(t) => t@,
                _ => "active"@,
            },
            _ => r matches Err(s) && s.code == StatusCode::FailedPrecondition && s.message@
                == "credit balance entitlement must use credits semantics"@,
        },
{
    let balance = match credit_balance {
        EntitlementReading::Missing => {
            return Err(
                Status {
                    code: StatusCode::FailedPrecondition,
                    message: owned("reconciliation requires a credit balance entitlement"),
                },
            );
        },
        EntitlementReading::Credits(b) => *b,
        _ => {
            return Err(
                Status {
                    code: StatusCode::FailedPrecondition,
                    message: owned("credit balance entitlement must use credits semantics"),
                },
            );
        },
    };
    let state = match service_access {
        EntitlementReading::Text(t) => t.clone(),
        _ => owned("active"),
    };
    Ok(EntitlementSnapshot { credit_balance_minor: balance, service_access_state: state })
}

/// The drift threshold of a run: as given, or 10 000; never below zero.
pub fn threshold_of(inputs: &ReconcileModelUsageAgainstCustomerLedgerInput) -> (r: i64)
    ensures
        r == ({
            let t = match inputs.threshold_minor {
                Some(t) => t,
                None => DEFAULT_THRESHOLD_MINOR,
            };
            if t < 0 {
                0
            } else {
                t
            }
        }),
{
    let t = match inputs.threshold_minor {
        Some(t) => t,
        None => DEFAULT_THRESHOLD_MINOR,
    };
    if t < 0 {
        0
    } else {
        t
    }
}

/// `subscription not found: {id}`.
pub open spec fn subscription_not_found(id: u128) -> Seq<char> {
    "subscription not found: "@ + uuid_hyphenated(id)
}

/// The status with which a run on an unknown subscription is refused.
pub fn unknown_subscription(subscription_id: u128) -> (r: Status)
    ensures
        r.code == StatusCode::NotFound,
        r.message@ == subscription_not_found(subscription_id),
{
    let id = uuid_text(subscription_id);
    Status { code: StatusCode::NotFound, message: concat2("subscription not found: ", id.as_str()) }
}

/// The balance the ledger says the customer should have: opening balance
/// plus grants plus adjustments, less debits.
pub open spec fn expected_balance(l: LedgerSnapshot) -> int {
    l.opening_balance_minor + l.credit_grants_minor + l.adjustments_minor - l.debits_minor
}

/// The absolute value of an integer.
pub open spec fn abs(v: int) -> int {
    if v < 0 {
        -v
    } else {
        v
    }
}

/// The largest of the three drifts: usage against debits, settlement
/// against grants, entitlement against the expected balance.
pub open spec fn max_drift(usage: UsageSnapshot, provider: ProviderBillingSnapshot, ledger: LedgerSnapshot, entitlement: EntitlementSnapshot) -> int {
    let a = abs(usage.burn_minor - ledger.debits_minor);
    let b = abs(provider.settled_minor - ledger.credit_grants_minor);
    let c = abs(entitlement.credit_balance_minor - expected_balance(ledger));
    if a >= b && a >= c {
        a
    } else if b >= c {
        b
    } else {
        c
    }
}

/// Where the arithmetic of an assessment stays within `i64`.
pub open spec fn assessment_fits(usage: UsageSnapshot, provider: ProviderBillingSnapshot, ledger: LedgerSnapshot, entitlement: EntitlementSnapshot) -> bool {
    let partial1 = ledger.opening_balance_minor + ledger.credit_grants_minor;
    let partial2 = partial1 + ledger.adjustments_minor;
    let expected = expected_balance(ledger);
    &&& i64::MIN <= partial1 <= i64::MAX
    &&& i64::MIN <= partial2 <= i64::MAX
    &&& i64::MIN <= expected <= i64::MAX
    &&& i64::MIN < usage.burn_minor - ledger.debits_minor <= i64::MAX
    &&& i64::MIN < provider.settled_minor - ledger.credit_grants_minor <= i64::MAX
    &&& i64::MIN < entitlement.credit_balance_minor - expected <= i64::MAX
}

/// How a period closes.
#[derive(Debug, Clone, Copy, PartialEq, Eq, Structural)]
pub enum ReconciliationOutcome {
    /// The provider matched the ledger and nothing drifted.
    Clean,
    /// Some drift, within the threshold: routed for investigation.
    Exception,
    /// Drift beyond the threshold: a person decides.
    ManualReview,
}

/// The assessment of a period.
#[derive(Debug, Clone)]
pub struct ReconciliationAssessment {
    pub subscription_id: u128,
    pub expected_credit_balance_minor: i64,
    pub current_credit_balance_minor: i64,
    pub usage_ledger_delta_minor: i64,
    pub provider_ledger_delta_minor: i64,
    pub entitlement_delta_minor: i64,
    pub matched_provider_to_ledger: bool,
    pub summary: String,
    pub outcome: ReconciliationOutcome,
}

/// How a period closes: clean where the settlement matched the ledger and
/// every drift is zero; otherwise to a person where the largest drift
/// exceeds the threshold, else routed as an exception.
pub open spec fn outcome_of(matched: bool, drift: int, threshold: i64) -> ReconciliationOutcome {
    if matched && drift == 0 {
        ReconciliationOutcome::Clean
    } else if drift > threshold {
        ReconciliationOutcome::ManualReview
    } else {
        ReconciliationOutcome::Exception
    }
}

fn abs_i64(v: i64) -> (r: i64)
    requires
        v > i64::MIN,
    ensures
        r == abs(v as int),
{
    if v < 0 {
        -v
    } else {
        v
    }
}

/// Assesses a period: the expected balance, the three drifts, their
/// summary, and how the period closes.
pub fn assess_reconciliation(
    subscription_id: u128,
    usage: &UsageSnapshot,
    provider: &ProviderBillingSnapshot,
    ledger: &LedgerSnapshot,
    entitlement: &EntitlementSnapshot,
    matched_provider_to_ledger: bool,
    threshold_minor: i64,
) -> (r: ReconciliationAssessment)
    requires
        assessment_fits(*usage, *provider, *ledger, *entitlement),
    ensures
        r.subscription_id == subscription_id,
        r.expected_credit_balance_minor == expected_balance(*ledger),
        r.current_credit_balance_minor == entitlement.credit_balance_minor,
        r.usage_ledger_delta_minor == usage.burn_minor - ledger.debits_minor,
        r.provider_ledger_delta_minor == provider.settled_minor - ledger.credit_grants_minor,
        r.entitlement_delta_minor == entitlement.credit_balance_minor - expected_balance(*ledger),
        r.matched_provider_to_ledger == matched_provider_to_ledger,
        r.summary@ == "usage/ledger delta "@ + int_decimal(r.usage_ledger_delta_minor as int)
            + ", provider/ledger delta "@ + int_decimal(r.provider_ledger_delta_minor as int)
            + ", entitlement delta "@ + int_decimal(r.entitlement_delta_minor as int),
        r.outcome == outcome_of(
            matched_provider_to_ledger,
            max_drift(*usage, *provider, *ledger, *entitlement),
            threshold_minor,
        ),
        r.outcome == ReconciliationOutcome::Clean <==> (matched_provider_to_ledger && r.usage_ledger_delta_minor
            == 0 && r.provider_ledger_delta_minor == 0 && r.entitlement_delta_minor == 0),
        (r.usage_ledger_delta_minor > threshold_minor || -r.usage_ledger_delta_minor > threshold_minor) && r.usage_ledger_delta_minor != 0
            ==> r.outcome == ReconciliationOutcome::ManualReview,
        (r.provider_ledger_delta_minor > threshold_minor || -r.provider_ledger_delta_minor > threshold_minor) && r.provider_ledger_delta_minor != 0
            ==> r.outcome == ReconciliationOutcome::ManualReview,
        (r.entitlement_delta_minor > threshold_minor || -r.entitlement_delta_minor > threshold_minor) && r.entitlement_delta_minor != 0
            ==> r.outcome == ReconciliationOutcome::ManualReview,
        r.outcome == ReconciliationOutcome::Exception <==> (!(r.outcome == ReconciliationOutcome::Clean) && -threshold_minor
            <= r.usage_ledger_delta_minor <= threshold_minor && -threshold_minor <= r.provider_ledger_delta_minor <= threshold_minor
            && -threshold_minor <= r.entitlement_delta_minor <= threshold_minor),
{
    proof {
        law_reconciliation_weighs_every_drift(*usage, *provider, *ledger, *entitlement, matched_provider_to_ledger, threshold_minor);
    }
    let expected = ledger.opening_balance_minor + ledger.credit_grants_minor + ledger.adjustments_minor
        - ledger.debits_minor;
    let usage_delta = usage.burn_minor - ledger.debits_minor;
    let provider_delta = provider.settled_minor - ledger.credit_grants_minor;
    let entitlement_delta = entitlement.credit_balance_minor - expected;
    let u = i64_text(usage_delta);
    let p = i64_text(provider_delta);
    let e = i64_text(entitlement_delta);
    let a = concat3("usage/ledger delta ", u.as_str(), ", provider/ledger delta ");
    let b = concat3(a.as_str(), p.as_str(), ", entitlement delta ");
    let summary = concat2(b.as_str(), e.as_str());
    let da = abs_i64(usage_delta);
    let db = abs_i64(provider_delta);
    let dc = abs_i64(entitlement_delta);
    let drift = if da >= db && da >= dc {
        da
    } else if db >= dc {
        db
    } else {
        dc
    };
    let outcome = if matched_provider_to_ledger && drift == 0 {
        ReconciliationOutcome::Clean
    } else if drift > threshold_minor {
        ReconciliationOutcome::ManualReview
    } else {
        ReconciliationOutcome::Exception
    };
    ReconciliationAssessment {
        subscription_id,
        expected_credit_balance_minor: expected,
        current_credit_balance_minor: entitlement.credit_balance_minor,
        usage_ledger_delta_minor: usage_delta,
        provider_ledger_delta_minor: provider_delta,
        entitlement_delta_minor: entitlement_delta,
        matched_provider_to_ledger,
        summary,
        outcome,
    }
}

/// Whether the assessment may run: every summary is in, and the
/// settlement matched the ledger or nothing was settled.
pub fn assessment_ready(summaries_in: bool, matched_provider_to_ledger: bool, settled_minor: i64) -> (r: bool)
    ensures
        r == (summaries_in && (matched_provider_to_ledger || settled_minor == 0)),
{
    summaries_in && (matched_provider_to_ledger || settled_minor == 0)
}

/// The route of an exception: a warning, blocked until investigated, with
/// the assessment's summary.
pub fn exception_route(assessment_summary: &str) -> (r: (&'static str, &'static str, String))
    ensures
        r.0@ == "warning"@,
        r.1@ == "blocked"@,
        r.2@ == "reconciliation drift routed for investigation: "@ + assessment_summary@,
{
    ("warning", "blocked", concat2("reconciliation drift routed for investigation: ", assessment_summary))
}

/// A period closes clean only with no drift at all and the settlement
/// matched; drift within the threshold is routed, never sent to a person;
/// drift beyond it always goes to a person.
pub proof fn law_reconciliation_routes_by_drift(matched: bool, drift: int, threshold: i64)
    requires
        drift >= 0,
        threshold >= 0,
    ensures
        outcome_of(matched, drift, threshold) == ReconciliationOutcome::Clean <==> (matched && drift == 0),
        drift > threshold ==> outcome_of(matched, drift, threshold) == ReconciliationOutcome::ManualReview,
        0 < drift <= threshold ==> outcome_of(matched, drift, threshold) == ReconciliationOutcome::Exception,
{
}

/// Every drift counts toward how a period closes: usage against debits,
/// settlement against grants, and the entitlement's balance against opening
/// balance plus grants plus adjustments less debits. A period closes clean
/// exactly when the settlement matched and all three are zero; any nonzero
/// drift beyond the threshold goes to a person; where none is beyond it and
/// the period is not clean, it is routed as an exception.
pub proof fn law_reconciliation_weighs_every_drift(
    usage: UsageSnapshot,
    provider: ProviderBillingSnapshot,
    ledger: LedgerSnapshot,
    entitlement: EntitlementSnapshot,
    matched: bool,
    threshold: i64,
)
    ensures
        ({
            let outcome = outcome_of(matched, max_drift(usage, provider, ledger, entitlement), threshold);
            let du = usage.burn_minor - ledger.debits_minor;
            let dp = provider.settled_minor - ledger.credit_grants_minor;
            let de = entitlement.credit_balance_minor - (ledger.opening_balance_minor + ledger.credit_grants_minor
                + ledger.adjustments_minor - ledger.debits_minor);
            &&& outcome == ReconciliationOutcome::Clean <==> (matched && du == 0 && dp == 0 && de == 0)
            &&& (du != 0 && (du > threshold || -du > threshold)) ==> outcome == ReconciliationOutcome::ManualReview
            &&& (dp != 0 && (dp > threshold || -dp > threshold)) ==> outcome == ReconciliationOutcome::ManualReview
            &&& (de != 0 && (de > threshold || -de > threshold)) ==> outcome == ReconciliationOutcome::ManualReview
            &&& outcome == ReconciliationOutcome::Exception <==> (outcome != ReconciliationOutcome::Clean && -threshold
                <= du <= threshold && -threshold <= dp <= threshold && -threshold <= de <= threshold)
        }),
{
}

/// The title of the workflow case of a period sent to a person.
pub fn review_case_title(subscription_id: u128) -> (r: String)
    ensures
        r@ == "Manual review: reconcile "@ + uuid_hyphenated(subscription_id),
{
    let id = uuid_text(subscription_id);
    concat2("Manual review: reconcile ", id.as_str())
}

/// The title of the workflow case of a routed exception.
pub fn investigation_case_title(subscription_id: u128) -> (r: String)
    ensures
        r@ == "Investigate reconciliation drift for "@ + uuid_hyphenated(subscription_id),
{
    let id = uuid_text(subscription_id);
    concat2("Investigate reconciliation drift for ", id.as_str())
}

} // verus!
