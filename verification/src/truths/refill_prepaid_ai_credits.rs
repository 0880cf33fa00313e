//! refill-prepaid-ai-credits: tops up a subscription's prepaid credit
//! balance once the payment is confirmed, and routes the top-up to a person
//! when the payment is not confirmed, is flagged, is large, or review is
//! asked for.
use std::collections::HashMap;
use vstd::prelude::*;
use crate::contracts::{credit_status_from_word, credit_status_word, present_bool, CreditPaymentStatus};
use crate::ids::{parsed_uuid, uuid_hyphenated, uuid_text};
use crate::inputs::{input_model, present};
use crate::runtime::{Status, StatusCode};
use crate::text::{ascii_lower, concat2, concat3, i64_text, int_decimal, opt_text, owned};
use crate::truths::common::{
    invalid_argument, invalid_uuid_message, missing_input_message, optional_bool, optional_i64,
    optional_input, present_i64, required_input, required_uuid,
};

verus! {

/// Top-ups of at least this many minor units need a person's approval.
pub const HIGH_RISK_THRESHOLD_MINOR: i64 = 1_000_000;

/// What the truth is run with.
#[derive(Debug, Clone)]
pub struct RefillPrepaidAiCreditsInput {
    pub subscription_id: u128,
    pub top_up_amount_minor: Option<i64>,
    pub payment_reference: String,
    pub payment_confirmed: Option<bool>,
    pub payment_status: Option<String>,
    pub risk_signal: Option<bool>,
    pub force_manual_review: Option<bool>,
    pub manual_review_reason: Option<String>,
}

impl RefillPrepaidAiCreditsInput {
    /// Reads the input: the subscription id (a UUID) and the payment
    /// reference are required, in that order; the rest is optional.
    pub fn from_map(inputs: &HashMap<String, String>) -> (r: Result<Self, Status>)
        ensures
            ({
                let m = input_model(*inputs);
                match present(m, "subscription_id"@) {
                    None => r matches Err(s) && invalid_argument(s, missing_input_message("subscription_id"@)),
                    Some(t) => match parsed_uuid(t) {
                        None => r matches Err(s) && invalid_argument(s, invalid_uuid_message("subscription_id"@, t)),
                        Some(id) => match present(m, "payment_reference"@) {
                            None => r matches Err(s) && invalid_argument(
                                s,
                                missing_input_message("payment_reference"@),
                            ),
                            Some(p) => r matches Ok(i) && {
                                &&& i.subscription_id == id
                                &&& i.payment_reference@ == p
                                &&& match i.top_up_amount_minor {
                                    Some(v) => present_i64(m, "top_up_amount_minor"@) == Some(v as int),
                                    None => present_i64(m, "top_up_amount_minor"@) is None,
                                }
                                &&& i.payment_confirmed == present_bool(m, "payment_confirmed"@)
                                &&& opt_text(i.payment_status) == present(m, "payment_status"@)
                                &&& i.risk_signal == present_bool(m, "risk_signal"@)
                                &&& i.force_manual_review == present_bool(m, "force_manual_review"@)
                                &&& opt_text(i.manual_review_reason) == present(m, "manual_review_reason"@)
                            },
                        },
                    },
                }
            }),
    {
        let subscription_id = required_uuid(inputs, "subscription_id")?;
        let top_up_amount_minor = optional_i64(inputs, "top_up_amount_minor");
        let payment_reference = owned(required_input(inputs, "payment_reference")?);
        Ok(
            RefillPrepaidAiCreditsInput {
                subscription_id,
                top_up_amount_minor,
                payment_reference,
                payment_confirmed: optional_bool(inputs, "payment_confirmed"),
                payment_status: optional_input(inputs, "payment_status"),
                risk_signal: optional_bool(inputs, "risk_signal"),
                force_manual_review: optional_bool(inputs, "force_manual_review"),
                manual_review_reason: optional_input(inputs, "manual_review_reason"),
            },
        )
    }
}

/// The payment status of a top-up: the confirmation flag decides when it is
/// given; otherwise the status word, unknown when there is none.
pub open spec fn payment_status_of(i: RefillPrepaidAiCreditsInput) -> CreditPaymentStatus {
    match i.payment_confirmed {
        Some(true) => CreditPaymentStatus::Confirmed,
        Some(false) => CreditPaymentStatus::Pending,
        None => match i.payment_status {
            Some(s) => credit_status_word(s@),
            None => credit_status_word("unknown"@),
        },
    }
}

/// The payment status of a top-up.
pub fn payment_status_from_inputs(inputs: &RefillPrepaidAiCreditsInput) -> (r: CreditPaymentStatus)
    ensures
        r == payment_status_of(*inputs),
        inputs.payment_confirmed is None && inputs.payment_status is Some && ({
            let w = ascii_lower(inputs.payment_status->Some_0@);
            w == "confirmed"@ || w == "paid"@ || w == "settled"@
        }) ==> r == CreditPaymentStatus::Confirmed,
{
    match inputs.payment_confirmed {
        Some(confirmed) => if confirmed {
            CreditPaymentStatus::Confirmed
        } else {
            CreditPaymentStatus::Pending
        },
        None => match &inputs.payment_status {
            Some(s) => credit_status_from_word(s.as_str()),
            None => credit_status_from_word("unknown"),
        },
    }
}

/// The name of a payment status.
pub open spec fn status_name(s: CreditPaymentStatus) -> Seq<char> {
    match s {
        CreditPaymentStatus::Confirmed => "confirmed"@,
        CreditPaymentStatus::Pending => "pending"@,
        CreditPaymentStatus::Failed => "failed"@,
        CreditPaymentStatus::Unknown => "unknown"@,
    }
}

/// The name of a payment status.
pub fn payment_status_name(status: CreditPaymentStatus) -> (r: &'static str)
    ensures
        r@ == status_name(status),
{
    match status {
        CreditPaymentStatus::Confirmed => "confirmed",
        CreditPaymentStatus::Pending => "pending",
        CreditPaymentStatus::Failed => "failed",
        CreditPaymentStatus::Unknown => "unknown",
    }
}

/// The credit balance entitlement of a subscription, as the CRM holds it.
#[derive(Debug, Clone, Copy, PartialEq, Eq, Structural)]
pub enum CreditBalance {
    /// The subscription has no credit balance entitlement.
    Missing,
    /// A balance in credits, in minor units.
    Credits(i64),
    /// The entitlement holds something other than credits.
    OtherSemantics,
}

/// What the CRM holds of the subscription being topped up.
#[derive(Debug, Clone)]
pub struct CreditSubscription {
    pub subscription_id: u128,
    pub organization_id: u128,
    pub active: bool,
    pub currency_code: String,
    pub credit_balance: CreditBalance,
}

/// Everything a refill decision rests on.
#[derive(Debug, Clone)]
pub struct RefillSeed {
    pub subscription_id: u128,
    pub organization_id: u128,
    pub currency_code: String,
    pub current_credit_balance_minor: i64,
    pub top_up_amount_minor: i64,
    pub payment_reference: String,
    pub payment_status: CreditPaymentStatus,
    pub manual_review_reason: Option<String>,
}

/// Why policy holds a top-up for a person: an unconfirmed payment, a risk
/// flag, or a size at or above the threshold, checked in that order.
pub open spec fn policy_review_reason(status: CreditPaymentStatus, risk: bool, amount: i64) -> Option<Seq<char>> {
    if status != CreditPaymentStatus::Confirmed {
        Some("payment "@ + status_name(status) + " is not confirmed; credit grant is blocked"@)
    } else if risk {
        Some("top-up flagged for risk review"@)
    } else if amount >= HIGH_RISK_THRESHOLD_MINOR {
        Some("top-up size exceeds the automatic approval threshold"@)
    } else {
        None
    }
}

/// Why the top-up goes to a person: an operator's reason (or a default one
/// when review is forced) first, else the policy's reason.
pub open spec fn review_reason_of(i: RefillPrepaidAiCreditsInput, status: CreditPaymentStatus, amount: i64) -> Option<Seq<char>> {
    let manual = if i.force_manual_review == Some(true) {
        match i.manual_review_reason {
            Some(r) => Some(r@),
            None => Some("manual review requested by operator"@),
        }
    } else {
        opt_text(i.manual_review_reason)
    };
    match manual {
        Some(r) => Some(r),
        None => policy_review_reason(status, i.risk_signal == Some(true), amount),
    }
}

/// The top-up amount, where it is given and positive.
pub open spec fn positive_amount(i: RefillPrepaidAiCreditsInput) -> Option<i64> {
    match i.top_up_amount_minor {
        Some(a) => if a > 0 {
            Some(a)
        } else {
            None
        },
        None => None,
    }
}

/// `subscription not found: {id}`.
pub open spec fn subscription_not_found(id: u128) -> Seq<char> {
    "subscription not found: "@ + uuid_hyphenated(id)
}

/// Gathers what a refill decision rests on. Refused, in this order: a
/// missing or non-positive amount (`InvalidArgument`), an unknown
/// subscription (`NotFound`), an inactive one, one without a credit
/// balance, or one whose balance is not in credits (`FailedPrecondition`).
pub fn load_refill_seed(inputs: &RefillPrepaidAiCreditsInput, subscription: Option<&CreditSubscription>) -> (r: Result<RefillSeed, Status>)
    ensures
        match positive_amount(*inputs) {
            Some(a) => match subscription {
                None => r matches Err(s) && s.code == StatusCode::NotFound && s.message@ == subscription_not_found(
                    inputs.subscription_id,
                ),
                Some(sub) => if !sub.active {
                    r matches Err(s) && s.code == StatusCode::FailedPrecondition && s.message@
                        == "refill requires an active subscription"@
                } else {
                    match sub.credit_balance {
                        CreditBalance::Missing => r matches Err(s) && s.code == StatusCode::FailedPrecondition
                            && s.message@ == "refill requires an existing credit balance entitlement"@,
                        CreditBalance::OtherSemantics => r matches Err(s) && s.code
                            == StatusCode::FailedPrecondition && s.message@
                            == "credit balance entitlement must use credits semantics"@,
                        CreditBalance::Credits(balance) => r matches Ok(seed) && {
                            &&& seed.subscription_id == sub.subscription_id
                            &&& seed.organization_id == sub.organization_id
                            &&& seed.currency_code == sub.currency_code
                            &&& seed.current_credit_balance_minor == balance
                            &&& seed.top_up_amount_minor == a
                            &&& seed.payment_reference == inputs.payment_reference
                            &&& seed.payment_status == payment_status_of(*inputs)
                            &&& opt_text(seed.manual_review_reason) == review_reason_of(
                                *inputs,
                                payment_status_of(*inputs),
                                a,
                            )
                        },
                    }
                },
            },
            None => r matches Err(s) && invalid_argument(s, "top_up_amount_minor must be positive"@),
        },
{
    let amount = match inputs.top_up_amount_minor {
        Some(a) => {
            if a > 0 {
                a
            } else {
                return Err(
                    Status { code: StatusCode::InvalidArgument, message: owned("top_up_amount_minor must be positive") },
                );
            }
        },
        None => {
            return Err(
                Status { code: StatusCode::InvalidArgument, message: owned("top_up_amount_minor must be positive") },
            );
        },
    };
    let status = payment_status_from_inputs(inputs);
    let sub = match subscription {
        Some(s) => s,
        None => {
            let id = uuid_text(inputs.subscription_id);
            return Err(
                Status { code: StatusCode::NotFound, message: concat2("subscription not found: ", id.as_str()) },
            );
        },
    };
    if !sub.active {
        return Err(
            Status { code: StatusCode::FailedPrecondition, message: owned("refill requires an active subscription") },
        );
    }
    let balance = match sub.credit_balance {
        CreditBalance::Missing => {
            return Err(
                Status {
                    code: StatusCode::FailedPrecondition,
                    message: owned("refill requires an existing credit balance entitlement"),
                },
            );
        },
        CreditBalance::OtherSemantics => {
            return Err(
                Status {
                    code: StatusCode::FailedPrecondition,
                    message: owned("credit balance entitlement must use credits semantics"),
                },
            );
        },
        CreditBalance::Credits(b) => b,
    };
    let policy: Option<String> = match status {
        CreditPaymentStatus::Confirmed => {
            if inputs.risk_signal == Some(true) {
                Some(owned("top-up flagged for risk review"))
            } else if amount >= HIGH_RISK_THRESHOLD_MINOR {
                Some(owned("top-up size exceeds the automatic approval threshold"))
            } else {
                None
            }
        },
        _ => Some(concat3("payment ", payment_status_name(status), " is not confirmed; credit grant is blocked")),
    };
    let manual: Option<String> = if inputs.force_manual_review == Some(true) {
        match &inputs.manual_review_reason {
            Some(r) => Some(r.clone()),
            None => Some(owned("manual review requested by operator")),
        }
    } else {
        match &inputs.manual_review_reason {
            Some(r) => Some(r.clone()),
            None => None,
        }
    };
    let reason = match manual {
        Some(r) => Some(r),
        None => policy,
    };
    Ok(
        RefillSeed {
            subscription_id: sub.subscription_id,
            organization_id: sub.organization_id,
            currency_code: sub.currency_code.clone(),
            current_credit_balance_minor: balance,
            top_up_amount_minor: amount,
            payment_reference: inputs.payment_reference.clone(),
            payment_status: status,
            manual_review_reason: reason,
        },
    )
}

/// What a refill run proposes.
#[derive(Debug, Clone)]
pub enum RefillDecision {
    /// The top-up waits for a person, for this reason.
    ManualReview { reason: String },
    /// The payment is confirmed and the credits are granted: the balance
    /// goes from `previous_balance_minor` to `resulting_balance_minor`.
    Grant {
        subscription_id: u128,
        organization_id: u128,
        payment_reference: String,
        payment_status: CreditPaymentStatus,
        amount_minor: i64,
        currency_code: String,
        previous_balance_minor: i64,
        resulting_balance_minor: i64,
    },
}

/// The balance a grant leaves: the current balance plus the top-up.
pub open spec fn granted_balance(seed: RefillSeed) -> int {
    seed.current_credit_balance_minor + seed.top_up_amount_minor
}

/// Decides a refill: to a person where the seed carries a review reason;
/// otherwise a grant of the top-up on top of the current balance.
pub fn decide_refill(seed: &RefillSeed) -> (r: RefillDecision)
    requires
        seed.current_credit_balance_minor + seed.top_up_amount_minor <= i64::MAX,
        seed.current_credit_balance_minor + seed.top_up_amount_minor >= i64::MIN,
    ensures
        match seed.manual_review_reason {
            Some(reason) => r matches RefillDecision::ManualReview { reason: x } && x@ == reason@,
            None => r matches RefillDecision::Grant {
                subscription_id,
                organization_id,
                payment_reference,
                payment_status,
                amount_minor,
                currency_code,
                previous_balance_minor,
                resulting_balance_minor,
            } && subscription_id == seed.subscription_id && organization_id == seed.organization_id
                && payment_reference == seed.payment_reference && payment_status == seed.payment_status
                && amount_minor == seed.top_up_amount_minor && currency_code == seed.currency_code
                && previous_balance_minor == seed.current_credit_balance_minor && resulting_balance_minor
                == granted_balance(*seed),
        },
{
    match &seed.manual_review_reason {
        Some(reason) => RefillDecision::ManualReview { reason: reason.clone() },
        None => RefillDecision::Grant {
            subscription_id: seed.subscription_id,
            organization_id: seed.organization_id,
            payment_reference: seed.payment_reference.clone(),
            payment_status: seed.payment_status,
            amount_minor: seed.top_up_amount_minor,
            currency_code: seed.currency_code.clone(),
            previous_balance_minor: seed.current_credit_balance_minor,
            resulting_balance_minor: seed.current_credit_balance_minor + seed.top_up_amount_minor,
        },
    }
}

/// A refill is granted only for a confirmed payment that is neither flagged
/// for risk nor at the approval threshold, and only when no person was
/// asked to review it.
pub proof fn law_grant_needs_confirmed_payment(i: RefillPrepaidAiCreditsInput, amount: i64)
    ensures
        review_reason_of(i, payment_status_of(i), amount) is None ==> {
            &&& payment_status_of(i) == CreditPaymentStatus::Confirmed
            &&& i.risk_signal != Some(true)
            &&& amount < HIGH_RISK_THRESHOLD_MINOR
            &&& i.force_manual_review != Some(true)
            &&& i.manual_review_reason is None
        },
{
}

/// Refills in a row accumulate: where a second top-up starts from the
/// balance that the first grant left, its grant leaves the first balance
/// plus both top-ups.
pub proof fn law_sequential_refills_accumulate(first: RefillSeed, second: RefillSeed)
    requires
        second.current_credit_balance_minor == granted_balance(first),
    ensures
        granted_balance(second) == first.current_credit_balance_minor + first.top_up_amount_minor
            + second.top_up_amount_minor,
{
}

/// The title of the workflow case that holds a top-up for review.
pub fn review_case_title(payment_reference: &str) -> (r: String)
    ensures
        r@ == "Manual review: prepaid refill "@ + payment_reference@,
{
    concat2("Manual review: prepaid refill ", payment_reference)
}

/// The statement recorded when a top-up is held for review.
pub fn review_fact_statement(reason: &str) -> (r: String)
    ensures
        r@ == "prepaid top-up blocked pending confirmation: "@ + reason@,
{
    concat2("prepaid top-up blocked pending confirmation: ", reason)
}

/// The statements recorded when a top-up is granted: the applied top-up,
/// then the balance change.
pub fn grant_fact_statements(
    payment_reference: &str,
    amount_minor: i64,
    currency_code: &str,
    previous_balance_minor: i64,
    resulting_balance_minor: i64,
) -> (r: (String, String))
    ensures
        r.0@ == "confirmed prepaid top-up "@ + payment_reference@ + " applied for "@ + int_decimal(
            amount_minor as int,
        ) + " "@ + currency_code@,
        r.1@ == "credit balance increased from "@ + int_decimal(previous_balance_minor as int) + " to "@
            + int_decimal(resulting_balance_minor as int),
{
    let amount = i64_text(amount_minor);
    let a = concat3("confirmed prepaid top-up ", payment_reference, " applied for ");
    let b = concat3(a.as_str(), amount.as_str(), " ");
    let applied = concat2(b.as_str(), currency_code);
    let prev = i64_text(previous_balance_minor);
    let next = i64_text(resulting_balance_minor);
    let c = concat3("credit balance increased from ", prev.as_str(), " to ");
    (applied, concat2(c.as_str(), next.as_str()))
}

} // verus!
