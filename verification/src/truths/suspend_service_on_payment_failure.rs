//! suspend-service-on-payment-failure: suspends a subscription's service
//! after a failed payment or once an overdue payment outlasts its grace
//! period, keeps it running during grace, and sends strategic accounts and
//! requested reviews to a person.
use std::collections::HashMap;
use vstd::prelude::*;
use crate::contracts::present_bool;
use crate::ids::{parsed_uuid, uuid_hyphenated, uuid_text};
use crate::inputs::{input_model, present};
use crate::names::WorkflowState;
use crate::runtime::{Status, StatusCode};
use crate::text::{ascii_lower, ascii_lowercase, concat2, concat3, i64_text, int_decimal, opt_text, owned, str_eq, texts, trim, trim_str};
use crate::truths::common::{
    invalid_argument, invalid_uuid_message, missing_input_message, optional_bool, optional_i64,
    optional_input, present_i64, required_input, required_uuid,
};

verus! {

/// The grace period, in days, where the run names none.
pub const DEFAULT_GRACE_DAYS: i64 = 7;

/// What the truth is run with.
#[derive(Debug, Clone)]
pub struct SuspendServiceOnPaymentFailureInput {
    pub subscription_id: u128,
    pub payment_status: String,
    pub days_overdue: Option<i64>,
    pub grace_days: Option<i64>,
    pub force_manual_review: Option<bool>,
    pub manual_review_reason: Option<String>,
    pub strategic_account: Option<bool>,
}

impl SuspendServiceOnPaymentFailureInput {
    /// Reads the input: the subscription id (a UUID) and the payment status
    /// are required, in that order; the rest is optional.
    pub fn from_map(inputs: &HashMap<String, String>) -> (r: Result<Self, Status>)
        ensures
            ({
                let m = input_model(*inputs);
                match present(m, "subscription_id"@) {
                    None => r matches Err(s) && invalid_argument(s, missing_input_message("subscription_id"@)),
                    Some(t) => match parsed_uuid(t) {
                        None => r matches Err(s) && invalid_argument(s, invalid_uuid_message("subscription_id"@, t)),
                        Some(id) => match present(m, "payment_status"@) {
                            None => r matches Err(s) && invalid_argument(s, missing_input_message("payment_status"@)),
                            Some(p) => r matches Ok(i) && {
                                &&& i.subscription_id == id
                                &&& i.payment_status@ == p
                                &&& match i.days_overdue {
                                    Some(v) => present_i64(m, "days_overdue"@) == Some(v as int),
                                    None => present_i64(m, "days_overdue"@) is None,
                                }
                                &&& match i.grace_days {
                                    Some(v) => present_i64(m, "grace_days"@) == Some(v as int),
                                    None => present_i64(m, "grace_days"@) is None,
                                }
                                &&& i.force_manual_review == present_bool(m, "force_manual_review"@)
                                &&& opt_text(i.manual_review_reason) == present(m, "manual_review_reason"@)
                                &&& i.strategic_account == present_bool(m, "strategic_account"@)
                            },
                        },
                    },
                }
            }),
    {
        let subscription_id = required_uuid(inputs, "subscription_id")?;
        let payment_status = owned(required_input(inputs, "payment_status")?);
        Ok(
            SuspendServiceOnPaymentFailureInput {
                subscription_id,
                payment_status,
                days_overdue: optional_i64(inputs, "days_overdue"),
                grace_days: optional_i64(inputs, "grace_days"),
                force_manual_review: optional_bool(inputs, "force_manual_review"),
                manual_review_reason: optional_input(inputs, "manual_review_reason"),
                strategic_account: optional_bool(inputs, "strategic_account"),
            },
        )
    }
}

/// How the payment failed.
#[derive(Debug, Clone, Copy, PartialEq, Eq, Structural)]
pub enum PaymentFailureStatus {
    Failed,
    Overdue,
}

/// A failure word, trimmed and case-folded: failed ones, overdue ones, or
/// none.
pub open spec fn failure_word(s: Seq<char>) -> Option<PaymentFailureStatus> {
    let l = ascii_lower(trim(s));
    if l == "failed"@ || l == "declined"@ || l == "payment_failed"@ {
        Some(PaymentFailureStatus::Failed)
    } else if l == "overdue"@ || l == "past_due"@ {
        Some(PaymentFailureStatus::Overdue)
    } else {
        None
    }
}

/// Reads how the payment failed; any other word is refused as
/// `InvalidArgument`, naming the word as read (trimmed and case-folded).
pub fn payment_failure_status(input: &str) -> (r: Result<PaymentFailureStatus, Status>)
    ensures
        match failure_word(input@) {
            Some(f) => r == Ok::<PaymentFailureStatus, Status>(f),
            None => r matches Err(s) && invalid_argument(
                s,
                "unsupported payment_status for suspension: "@ + ascii_lower(trim(input@)),
            ),
        },
{
    let l = ascii_lowercase(trim_str(input));
    let w = l.as_str();
    if str_eq(w, "failed") || str_eq(w, "declined") || str_eq(w, "payment_failed") {
        Ok(PaymentFailureStatus::Failed)
    } else if str_eq(w, "overdue") || str_eq(w, "past_due") {
        Ok(PaymentFailureStatus::Overdue)
    } else {
        Err(
            Status {
                code: StatusCode::InvalidArgument,
                message: concat2("unsupported payment_status for suspension: ", w),
            },
        )
    }
}

/// The name of a failure.
pub open spec fn failure_name(s: PaymentFailureStatus) -> Seq<char> {
    match s {
        PaymentFailureStatus::Failed => "failed"@,
        PaymentFailureStatus::Overdue => "overdue"@,
    }
}

/// The name of a failure.
pub fn payment_failure_status_name(status: PaymentFailureStatus) -> (r: &'static str)
    ensures
        r@ == failure_name(status),
{
    match status {
        PaymentFailureStatus::Failed => "failed",
        PaymentFailureStatus::Overdue => "overdue",
    }
}

/// What the CRM holds of the subscription and its organization.
#[derive(Debug, Clone)]
pub struct SuspensionAccount {
    pub subscription_id: u128,
    pub active: bool,
    pub organization_id: u128,
    /// The organization's tags; none where the organization is not found.
    pub organization_tags: Option<Vec<String>>,
}

/// Everything a suspension decision rests on.
#[derive(Debug, Clone)]
pub struct SuspensionSeed {
    pub subscription_id: u128,
    pub organization_id: u128,
    pub payment_status: PaymentFailureStatus,
    pub days_overdue: i64,
    pub grace_days: i64,
    pub manual_review_reason: Option<String>,
}

/// Whether a tag marks a strategic account: `strategic` or `vip`, trimmed
/// and case-folded.
pub open spec fn strategic_tag(t: Seq<char>) -> bool {
    ascii_lower(trim(t)) == "strategic"@ || ascii_lower(trim(t)) == "vip"@
}

/// Whether the account is strategic: as the run says, else by its tags.
pub open spec fn is_strategic(flag: Option<bool>, tags: Seq<Seq<char>>) -> bool {
    match flag {
        Some(b) => b,
        None => exists|i: int| 0 <= i < tags.len() && strategic_tag(#[trigger] tags[i]),
    }
}

/// The larger of a number and zero.
pub open spec fn at_least_zero(v: i64) -> i64 {
    if v < 0 {
        0
    } else {
        v
    }
}

/// Whether the service is to be suspended: the payment failed outright, or
/// it is overdue for longer than the grace period.
pub open spec fn suspends(status: PaymentFailureStatus, days_overdue: i64, grace_days: i64) -> bool {
    status == PaymentFailureStatus::Failed || days_overdue > grace_days
}

/// Why the suspension goes to a person: review is forced (with the
/// operator's reason, or a default one); or the service would be suspended
/// on a strategic account (with the operator's reason, or a default one);
/// or an operator gave a reason anyway.
pub open spec fn suspension_review_reason(
    i: SuspendServiceOnPaymentFailureInput,
    would_suspend: bool,
    strategic: bool,
) -> Option<Seq<char>> {
    if i.force_manual_review == Some(true) {
        match i.manual_review_reason {
            Some(r) => Some(r@),
            None => Some("manual review requested by operator"@),
        }
    } else if would_suspend && strategic {
        match i.manual_review_reason {
            Some(r) => Some(r@),
            None => Some("strategic account suspension requires approval"@),
        }
    } else {
        opt_text(i.manual_review_reason)
    }
}

/// `subscription not found: {id}`.
pub open spec fn missing_subscription(id: u128) -> Seq<char> {
    "subscription not found: "@ + uuid_hyphenated(id)
}

fn has_strategic_tag(tags: &Vec<String>) -> (r: bool)
    ensures
        r == exists|i: int| 0 <= i < tags@.len() && strategic_tag(#[trigger] texts(tags@)[i]),
{
    let n = tags.len();
    let mut i: usize = 0;
    while i < n
        invariant
            n == tags@.len(),
            i <= n,
            forall|j: int| 0 <= j < i ==> !strategic_tag(#[trigger] texts(tags@)[j]),
        decreases n - i,
    {
        let l = ascii_lowercase(trim_str(tags[i].as_str()));
        if str_eq(l.as_str(), "strategic") || str_eq(l.as_str(), "vip") {
            assert(strategic_tag(texts(tags@)[i as int]));
            return true;
        }
        i = i + 1;
    }
    false
}

/// Gathers what a suspension decision rests on. Refused, in this order: a
/// payment status that is neither a failure nor overdue
/// (`InvalidArgument`), an unknown subscription (`NotFound`), an inactive
/// one (`FailedPrecondition`), an unknown organization (`NotFound`).
/// Overdue days and grace days below zero count as zero; grace defaults
/// to 7 days.
pub fn load_suspension_seed(inputs: &SuspendServiceOnPaymentFailureInput, account: Option<&SuspensionAccount>) -> (r: Result<SuspensionSeed, Status>)
    ensures
        match failure_word(inputs.payment_status@) {
            None => r matches Err(s) && invalid_argument(
                s,
                "unsupported payment_status for suspension: "@ + ascii_lower(trim(inputs.payment_status@)),
            ),
            Some(status) => match account {
                None => r matches Err(s) && s.code == StatusCode::NotFound && s.message@ == missing_subscription(
                    inputs.subscription_id,
                ),
                Some(a) => if !a.active {
                    r matches Err(s) && s.code == StatusCode::FailedPrecondition && s.message@
                        == "service suspension requires an active subscription"@
                } else {
                    match a.organization_tags {
                        None => r matches Err(s) && s.code == StatusCode::NotFound && s.message@
                            == "organization not found: "@ + uuid_hyphenated(a.organization_id),
                        Some(tags) => r matches Ok(seed) && {
                            let days = at_least_zero(
                                match inputs.days_overdue {
                                    Some(d) => d,
                                    None => 0,
                                },
                            );
                            let grace = at_least_zero(
                                match inputs.grace_days {
                                    Some(g) => g,
                                    None => DEFAULT_GRACE_DAYS,
                                },
                            );
                            &&& seed.subscription_id == a.subscription_id
                            &&& seed.organization_id == a.organization_id
                            &&& seed.payment_status == status
                            &&& seed.days_overdue == days
                            &&& seed.grace_days == grace
                            &&& opt_text(seed.manual_review_reason) == suspension_review_reason(
                                *inputs,
                                suspends(status, days, grace),
                                is_strategic(inputs.strategic_account, texts(tags@)),
                            )
                        },
                    }
                },
            },
        },
        r is Ok && inputs.force_manual_review == Some(true) ==> r->Ok_0.manual_review_reason is Some
            && r->Ok_0.manual_review_reason->Some_0@ == (match inputs.manual_review_reason {
            Some(x) => x@,
            None => "manual review requested by operator"@,
        }),
{
    let status = payment_failure_status(inputs.payment_status.as_str())?;
    let days = match inputs.days_overdue {
        Some(d) => if d < 0 {
            0
        } else {
            d
        },
        None => 0,
    };
    let grace = match inputs.grace_days {
        Some(g) => if g < 0 {
            0
        } else {
            g
        },
        None => DEFAULT_GRACE_DAYS,
    };
    let a = match account {
        Some(a) => a,
        None => {
            let id = uuid_text(inputs.subscription_id);
            return Err(Status { code: StatusCode::NotFound, message: concat2("subscription not found: ", id.as_str()) });
        },
    };
    if !a.active {
        return Err(
            Status {
                code: StatusCode::FailedPrecondition,
                message: owned("service suspension requires an active subscription"),
            },
        );
    }
    let tags = match &a.organization_tags {
        Some(t) => t,
        None => {
            let id = uuid_text(a.organization_id);
            return Err(Status { code: StatusCode::NotFound, message: concat2("organization not found: ", id.as_str()) });
        },
    };
    let strategic = match inputs.strategic_account {
        Some(b) => b,
        None => has_strategic_tag(tags),
    };
    let would_suspend = status == PaymentFailureStatus::Failed || days > grace;
    let reason: Option<String> = if inputs.force_manual_review == Some(true) {
        match &inputs.manual_review_reason {
            Some(r) => Some(r.clone()),
            None => Some(owned("manual review requested by operator")),
        }
    } else if would_suspend && strategic {
        match &inputs.manual_review_reason {
            Some(r) => Some(r.clone()),
            None => Some(owned("strategic account suspension requires approval")),
        }
    } else {
        match &inputs.manual_review_reason {
            Some(r) => Some(r.clone()),
            None => None,
        }
    };
    Ok(
        SuspensionSeed {
            subscription_id: a.subscription_id,
            organization_id: a.organization_id,
            payment_status: status,
            days_overdue: days,
            grace_days: grace,
            manual_review_reason: reason,
        },
    )
}

/// What a suspension run decides.
#[derive(Debug, Clone)]
pub enum SuspensionDecision {
    /// A person decides, for this reason.
    ManualReview { reason: String },
    /// The service is suspended, for this reason.
    Suspend { reason: String },
    /// The service stays on during the grace period; this says how far
    /// into it the account is.
    Defer { reason: String },
}

/// Why the service is suspended: at once after a failure, or after the
/// overdue days passed the grace period.
pub open spec fn suspension_reason_text(status: PaymentFailureStatus, days: i64, grace: i64) -> Seq<char> {
    match status {
        PaymentFailureStatus::Failed => "service suspended immediately after payment failure"@,
        PaymentFailureStatus::Overdue => "service suspended after "@ + int_decimal(days as int)
            + " overdue days exceeded grace of "@ + int_decimal(grace as int),
    }
}

/// Why the service stays on: `service remains active during grace period
/// ({days} of {grace} days overdue)`.
pub open spec fn deferral_reason_text(days: i64, grace: i64) -> Seq<char> {
    "service remains active during grace period ("@ + int_decimal(days as int) + " of "@ + int_decimal(
        grace as int,
    ) + " days overdue)"@
}

/// Decides the suspension: to a person where the seed carries a review
/// reason; otherwise suspended when the payment failed or the grace period
/// is over; otherwise deferred.
pub fn decide_suspension(seed: &SuspensionSeed) -> (r: SuspensionDecision)
    ensures
        match seed.manual_review_reason {
            Some(reason) => r matches SuspensionDecision::ManualReview { reason: x } && x@ == reason@,
            None => if suspends(seed.payment_status, seed.days_overdue, seed.grace_days) {
                r matches SuspensionDecision::Suspend { reason } && reason@ == suspension_reason_text(
                    seed.payment_status,
                    seed.days_overdue,
                    seed.grace_days,
                )
            } else {
                r matches SuspensionDecision::Defer { reason } && reason@ == deferral_reason_text(
                    seed.days_overdue,
                    seed.grace_days,
                )
            },
        },
{
    match &seed.manual_review_reason {
        Some(reason) => SuspensionDecision::ManualReview { reason: reason.clone() },
        None => {
            let days = i64_text(seed.days_overdue);
            let grace = i64_text(seed.grace_days);
            if seed.payment_status == PaymentFailureStatus::Failed || seed.days_overdue > seed.grace_days {
                match seed.payment_status {
                    PaymentFailureStatus::Failed => SuspensionDecision::Suspend {
                        reason: owned("service suspended immediately after payment failure"),
                    },
                    PaymentFailureStatus::Overdue => {
                        let a = concat3("service suspended after ", days.as_str(), " overdue days exceeded grace of ");
                        SuspensionDecision::Suspend { reason: concat2(a.as_str(), grace.as_str()) }
                    },
                }
            } else {
                let a = concat3("service remains active during grace period (", days.as_str(), " of ");
                SuspensionDecision::Defer { reason: concat3(a.as_str(), grace.as_str(), " days overdue)") }
            }
        },
    }
}

/// What the decision does to the customer's access: the access state and
/// whether the workspace stays usable. Recovery stays allowed either way.
pub fn entitlement_impact(suspended: bool) -> (r: (&'static str, bool))
    ensures
        r.0@ == if suspended {
            "suspended"@
        } else {
            "grace"@
        },
        r.1 == !suspended,
{
    if suspended {
        ("suspended", false)
    } else {
        ("grace", true)
    }
}

/// The recovery path after the decision: its summary and next action.
pub fn recovery_path(suspended: bool, status: PaymentFailureStatus, grace_days: i64) -> (r: (String, String))
    ensures
        r.0@ == if suspended {
            "customer must clear the "@ + failure_name(status) + " payment failure before access is reinstated"@
        } else {
            "customer remains in grace while payment recovery is pursued for "@ + int_decimal(grace_days as int)
                + " days"@
        },
        r.1@ == if suspended {
            "collect payment and route to reinstatement review"@
        } else {
            "notify customer and reassess when grace expires"@
        },
{
    if suspended {
        (
            concat3(
                "customer must clear the ",
                payment_failure_status_name(status),
                " payment failure before access is reinstated",
            ),
            owned("collect payment and route to reinstatement review"),
        )
    } else {
        let g = i64_text(grace_days);
        (
            concat3("customer remains in grace while payment recovery is pursued for ", g.as_str(), " days"),
            owned("notify customer and reassess when grace expires"),
        )
    }
}

/// The priority of the workflow case that a suspension run opens.
#[derive(Debug, Clone, Copy, PartialEq, Eq, Structural)]
pub enum CasePriority {
    High,
    Critical,
}

/// What a suspension run writes into the CRM: whether the subscription is
/// suspended, the workflow case it opens (title, priority, and the state
/// it is advanced to), and the facts it records, each with full confidence.
#[derive(Debug, Clone)]
pub struct SuspensionProjectionPlan {
    pub suspend: bool,
    pub case_title: String,
    pub case_priority: CasePriority,
    pub case_state: WorkflowState,
    pub fact_statements: Vec<String>,
    pub fact_confidence_bps: u16,
}

/// What a decision writes: a review opens a critical case awaiting
/// approval and records why; a suspension suspends the subscription, opens
/// a high-priority case waiting on the customer, and records the suspension
/// and the recovery path; a deferral opens a high-priority grace-period case
/// waiting on the customer and records the policy's reason and the recovery
/// path.
pub open spec fn projection_plan_holds(
    r: SuspensionProjectionPlan,
    subscription_id: u128,
    decision: SuspensionDecision,
    payment_status: PaymentFailureStatus,
    grace_days: i64,
) -> bool {
    let id = uuid_hyphenated(subscription_id);
    &&& r.fact_confidence_bps == 10000
    &&& match decision {
        SuspensionDecision::ManualReview { reason } => {
            &&& !r.suspend
            &&& r.case_title@ == "Manual review: suspend service for "@ + id
            &&& r.case_priority == CasePriority::Critical
            &&& r.case_state == WorkflowState::AwaitingApproval
            &&& texts(r.fact_statements@) == seq!["service suspension awaiting manual review: "@ + reason@]
        },
        SuspensionDecision::Suspend { .. } => {
            &&& r.suspend
            &&& r.case_title@ == "Payment recovery required for "@ + id
            &&& r.case_priority == CasePriority::High
            &&& r.case_state == WorkflowState::WaitingExternal
            &&& texts(r.fact_statements@) == seq![
                "service suspended after "@ + failure_name(payment_status) + " payment state"@,
                "customer must clear the "@ + failure_name(payment_status) + " payment failure before access is reinstated"@,
            ]
        },
        SuspensionDecision::Defer { reason } => {
            &&& !r.suspend
            &&& r.case_title@ == "Grace period: payment recovery for "@ + id
            &&& r.case_priority == CasePriority::High
            &&& r.case_state == WorkflowState::WaitingExternal
            &&& texts(r.fact_statements@) == seq![
                reason@,
                "customer remains in grace while payment recovery is pursued for "@ + int_decimal(grace_days as int)
                    + " days"@,
            ]
        },
    }
}

/// Plans what a suspension run writes into the CRM for its decision.
pub fn suspension_projection_plan(
    subscription_id: u128,
    decision: &SuspensionDecision,
    payment_status: PaymentFailureStatus,
    grace_days: i64,
) -> (r: SuspensionProjectionPlan)
    ensures
        projection_plan_holds(r, subscription_id, *decision, payment_status, grace_days),
{
    let id = uuid_text(subscription_id);
    match decision {
        SuspensionDecision::ManualReview { reason } => {
            let mut facts: Vec<String> = Vec::new();
            facts.push(concat2("service suspension awaiting manual review: ", reason.as_str()));
            assert(texts(facts@) =~= seq!["service suspension awaiting manual review: "@ + reason@]);
            SuspensionProjectionPlan {
                suspend: false,
                case_title: concat2("Manual review: suspend service for ", id.as_str()),
                case_priority: CasePriority::Critical,
                case_state: WorkflowState::AwaitingApproval,
                fact_statements: facts,
                fact_confidence_bps: 10000,
            }
        },
        SuspensionDecision::Suspend { .. } => {
            let (recovery, _next) = recovery_path(true, payment_status, grace_days);
            let mut facts: Vec<String> = Vec::new();
            facts.push(concat3("service suspended after ", payment_failure_status_name(payment_status), " payment state"));
            facts.push(recovery);
            assert(texts(facts@) =~= seq![
                "service suspended after "@ + failure_name(payment_status) + " payment state"@,
                "customer must clear the "@ + failure_name(payment_status) + " payment failure before access is reinstated"@,
            ]);
            SuspensionProjectionPlan {
                suspend: true,
                case_title: concat2("Payment recovery required for ", id.as_str()),
                case_priority: CasePriority::High,
                case_state: WorkflowState::WaitingExternal,
                fact_statements: facts,
                fact_confidence_bps: 10000,
            }
        },
        SuspensionDecision::Defer { reason } => {
            let (recovery, _next) = recovery_path(false, payment_status, grace_days);
            let mut facts: Vec<String> = Vec::new();
            facts.push(reason.clone());
            facts.push(recovery);
            assert(texts(facts@) =~= seq![
                reason@,
                "customer remains in grace while payment recovery is pursued for "@ + int_decimal(grace_days as int)
                    + " days"@,
            ]);
            SuspensionProjectionPlan {
                suspend: false,
                case_title: concat2("Grace period: payment recovery for ", id.as_str()),
                case_priority: CasePriority::High,
                case_state: WorkflowState::WaitingExternal,
                fact_statements: facts,
                fact_confidence_bps: 10000,
            }
        },
    }
}

/// Without a review, a failed payment suspends the service at once, and an
/// overdue one only once its days pass the grace period: within grace the
/// service is never suspended.
pub proof fn law_grace_period_respected(status: PaymentFailureStatus, days: i64, grace: i64)
    ensures
        status == PaymentFailureStatus::Overdue && days <= grace ==> !suspends(status, days, grace),
        status == PaymentFailureStatus::Overdue && days > grace ==> suspends(status, days, grace),
        status == PaymentFailureStatus::Failed ==> suspends(status, days, grace),
{
}

/// A strategic account is never suspended without a person: where the
/// service would be suspended, the run goes to review.
pub proof fn law_strategic_accounts_go_to_review(i: SuspendServiceOnPaymentFailureInput, would_suspend: bool, strategic: bool)
    ensures
        would_suspend && strategic ==> suspension_review_reason(i, would_suspend, strategic) is Some,
{
}

/// A review that the operator forces always happens: whatever the payment
/// status, the days overdue or the account, the run carries a review
/// reason, the operator's own or "manual review requested by operator".
/// A reason the operator gives is always the one carried.
pub proof fn law_forced_review_always_reviewed(i: SuspendServiceOnPaymentFailureInput, would_suspend: bool, strategic: bool)
    ensures
        i.force_manual_review == Some(true) && i.manual_review_reason is None ==> suspension_review_reason(
            i,
            would_suspend,
            strategic,
        ) == Some("manual review requested by operator"@),
        i.manual_review_reason matches Some(x) ==> suspension_review_reason(i, would_suspend, strategic) == Some(
            x@,
        ),
        would_suspend && strategic && i.force_manual_review != Some(true) && i.manual_review_reason is None
            ==> suspension_review_reason(i, would_suspend, strategic) == Some(
            "strategic account suspension requires approval"@,
        ),
        !(would_suspend && strategic) && i.force_manual_review != Some(true) && i.manual_review_reason is None
            ==> suspension_review_reason(i, would_suspend, strategic) is None,
{
}

} // verus!
