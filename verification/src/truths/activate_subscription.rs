//! activate-subscription: resolves a subscription's catalog plan, previews
//! the entitlements the plan grants, books the opening balance, and sends
//! plans that need it to a person before activation.
use std::collections::HashMap;
use vstd::prelude::*;
use crate::contracts::present_bool;
use crate::ids::{parsed_uuid, uuid_hyphenated, uuid_text};
use crate::inputs::{input_model, present};
use crate::runtime::{Status, StatusCode};
use crate::text::{concat2, i64_text, int_decimal, opt_text, owned, texts, u64_text};
use crate::truths::common::{
    invalid_argument, invalid_uuid_message, missing_input_message, optional_bool, optional_i64,
    optional_input, optional_uuid, present_i64, required_uuid,
};

verus! {

/// What the truth is run with.
#[derive(Debug, Clone)]
pub struct ActivateSubscriptionInput {
    pub subscription_id: u128,
    pub catalog_item_id: Option<u128>,
    pub opening_balance_minor: Option<i64>,
    pub opening_balance_currency_code: Option<String>,
    pub force_manual_review: Option<bool>,
    pub manual_review_reason: Option<String>,
    pub owner_user_id: Option<String>,
    pub workflow_title: Option<String>,
}

impl ActivateSubscriptionInput {
    /// Reads the input: the subscription id (a UUID) is required; a catalog
    /// item id, when given, must be a UUID; the rest is optional.
    pub fn from_map(inputs: &HashMap<String, String>) -> (r: Result<Self, Status>)
        ensures
            ({
                let m = input_model(*inputs);
                match present(m, "subscription_id"@) {
                    None => r matches Err(s) && invalid_argument(s, missing_input_message("subscription_id"@)),
                    Some(t) => match parsed_uuid(t) {
                        None => r matches Err(s) && invalid_argument(s, invalid_uuid_message("subscription_id"@, t)),
                        Some(id) => match present(m, "catalog_item_id"@) {
                            Some(c) if parsed_uuid(c) is None => r matches Err(s) && invalid_argument(
                                s,
                                invalid_uuid_message("catalog_item_id"@, c),
                            ),
                            _ => r matches Ok(i) && {
                                &&& i.subscription_id == id
                                &&& i.catalog_item_id == match present(m, "catalog_item_id"@) {
                                    Some(c) => parsed_uuid(c),
                                    None => None,
                                }
                                &&& match i.opening_balance_minor {
                                    Some(v) => present_i64(m, "opening_balance_minor"@) == Some(v as int),
                                    None => present_i64(m, "opening_balance_minor"@) is None,
                                }
                                &&& opt_text(i.opening_balance_currency_code) == present(
                                    m,
                                    "opening_balance_currency_code"@,
                                )
                                &&& i.force_manual_review == present_bool(m, "force_manual_review"@)
                                &&& opt_text(i.manual_review_reason) == present(m, "manual_review_reason"@)
                                &&& opt_text(i.owner_user_id) == present(m, "owner_user_id"@)
                                &&& opt_text(i.workflow_title) == present(m, "workflow_title"@)
                            },
                        },
                    },
                }
            }),
    {
        let subscription_id = required_uuid(inputs, "subscription_id")?;
        let catalog_item_id = optional_uuid(inputs, "catalog_item_id")?;
        Ok(
            ActivateSubscriptionInput {
                subscription_id,
                catalog_item_id,
                opening_balance_minor: optional_i64(inputs, "opening_balance_minor"),
                opening_balance_currency_code: optional_input(inputs, "opening_balance_currency_code"),
                force_manual_review: optional_bool(inputs, "force_manual_review"),
                manual_review_reason: optional_input(inputs, "manual_review_reason"),
                owner_user_id: optional_input(inputs, "owner_user_id"),
                workflow_title: optional_input(inputs, "workflow_title"),
            },
        )
    }
}

/// The kind of a catalog plan.
#[derive(Debug, Clone, Copy, PartialEq, Eq, Structural)]
pub enum CatalogPlanKind {
    Standard,
    EnterpriseCustom,
}

/// How often a plan bills.
#[derive(Debug, Clone, Copy, PartialEq, Eq, Structural)]
pub enum BillingPeriod {
    Monthly,
    Annual,
    Custom,
}

/// What a plan grants: feature flags, quotas (in ascending key order), and
/// a credit balance.
#[derive(Debug, Clone)]
pub struct EntitlementTemplate {
    pub feature_flags: Vec<String>,
    pub quotas: Vec<(String, u64)>,
    pub credit_balance_minor: Option<i64>,
}

/// A catalog plan, as far as activation reads it.
#[derive(Debug, Clone)]
pub struct CatalogItem {
    pub id: u128,
    pub sku: String,
    pub plan_kind: CatalogPlanKind,
    /// The billing period of the plan's pricing, where it has pricing.
    pub billing_period: Option<BillingPeriod>,
    pub entitlement_template: EntitlementTemplate,
}

fn copy_texts(v: &Vec<String>) -> (r: Vec<String>)
    ensures
        r@ == v@,
{
    let mut r: Vec<String> = Vec::new();
    let mut i: usize = 0;
    while i < v.len()
        invariant
            i <= v@.len(),
            r@ == v@.subrange(0, i as int),
        decreases v@.len() - i,
    {
        r.push(v[i].clone());
        i = i + 1;
        assert(r@ =~= v@.subrange(0, i as int));
    }
    assert(v@.subrange(0, v@.len() as int) =~= v@);
    r
}

fn copy_quotas(v: &Vec<(String, u64)>) -> (r: Vec<(String, u64)>)
    ensures
        r@ == v@,
{
    let mut r: Vec<(String, u64)> = Vec::new();
    let mut i: usize = 0;
    while i < v.len()
        invariant
            i <= v@.len(),
            r@ == v@.subrange(0, i as int),
        decreases v@.len() - i,
    {
        let (k, a) = &v[i];
        r.push((k.clone(), *a));
        i = i + 1;
        assert(r@ =~= v@.subrange(0, i as int));
    }
    assert(v@.subrange(0, v@.len() as int) =~= v@);
    r
}

impl CatalogItem {
    /// A copy with the same content.
    pub fn copy(&self) -> (r: Self)
        ensures
            r.id == self.id,
            r.sku == self.sku,
            r.plan_kind == self.plan_kind,
            r.billing_period == self.billing_period,
            r.entitlement_template.feature_flags@ == self.entitlement_template.feature_flags@,
            r.entitlement_template.quotas@ == self.entitlement_template.quotas@,
            r.entitlement_template.credit_balance_minor == self.entitlement_template.credit_balance_minor,
    {
        CatalogItem {
            id: self.id,
            sku: self.sku.clone(),
            plan_kind: self.plan_kind,
            billing_period: self.billing_period,
            entitlement_template: EntitlementTemplate {
                feature_flags: copy_texts(&self.entitlement_template.feature_flags),
                quotas: copy_quotas(&self.entitlement_template.quotas),
                credit_balance_minor: self.entitlement_template.credit_balance_minor,
            },
        }
    }
}

/// What the CRM holds of the subscription being activated.
#[derive(Debug, Clone)]
pub struct SubscriptionRecord {
    pub id: u128,
    pub organization_id: u128,
    pub catalog_item_id: Option<u128>,
    pub currency_code: String,
}

/// Why a plan needs a person: enterprise custom plans, then plans that bill
/// over a custom period.
pub open spec fn inferred_review(item: CatalogItem) -> Option<Seq<char>> {
    if item.plan_kind == CatalogPlanKind::EnterpriseCustom {
        Some("enterprise custom plans require manual review"@)
    } else if item.billing_period == Some(BillingPeriod::Custom) {
        Some("custom billing periods require manual review"@)
    } else {
        None
    }
}

/// Why a plan needs a person, if it does.
pub fn infer_manual_review_reason(item: &CatalogItem) -> (r: Option<String>)
    ensures
        opt_text(r) == inferred_review(*item),
{
    if item.plan_kind == CatalogPlanKind::EnterpriseCustom {
        Some(owned("enterprise custom plans require manual review"))
    } else if item.billing_period == Some(BillingPeriod::Custom) {
        Some(owned("custom billing periods require manual review"))
    } else {
        None
    }
}

/// One entitlement a plan grants: its key, kind and value as text.
#[derive(Debug, Clone)]
pub struct EntitlementPreviewItem {
    pub key: String,
    pub kind: String,
    pub value: String,
}

/// The content of a preview item.
pub open spec fn preview_model(i: EntitlementPreviewItem) -> (Seq<char>, Seq<char>, Seq<char>) {
    (i.key@, i.kind@, i.value@)
}

/// The entitlements a plan grants, in order: each feature flag (value
/// `true`), each quota with its amount, then the credit balance if any.
pub open spec fn preview_of(t: EntitlementTemplate) -> Seq<(Seq<char>, Seq<char>, Seq<char>)> {
    let flags = t.feature_flags@.map_values(|f: String| (f@, "feature-flag"@, "true"@));
    let quotas = t.quotas@.map_values(|q: (String, u64)| (q.0@, "quota"@, int_decimal(q.1 as int)));
    match t.credit_balance_minor {
        Some(c) => (flags + quotas).push(("credit_balance_minor"@, "credits"@, int_decimal(c as int))),
        None => flags + quotas,
    }
}

/// The entitlements a plan grants.
pub fn entitlement_preview_items(item: &CatalogItem) -> (r: Vec<EntitlementPreviewItem>)
    ensures
        r@.map_values(|i: EntitlementPreviewItem| preview_model(i)) == preview_of(item.entitlement_template),
{
    let t = &item.entitlement_template;
    let ghost flags = t.feature_flags@.map_values(|f: String| (f@, "feature-flag"@, "true"@));
    let ghost quotas = t.quotas@.map_values(|q: (String, u64)| (q.0@, "quota"@, int_decimal(q.1 as int)));
    let mut out: Vec<EntitlementPreviewItem> = Vec::new();
    let mut i: usize = 0;
    while i < t.feature_flags.len()
        invariant
            i <= t.feature_flags@.len(),
            flags == t.feature_flags@.map_values(|f: String| (f@, "feature-flag"@, "true"@)),
            out@.map_values(|i: EntitlementPreviewItem| preview_model(i)) == flags.take(i as int),
        decreases t.feature_flags@.len() - i,
    {
        let ghost prev = out@;
        let flag = EntitlementPreviewItem {
            key: t.feature_flags[i].clone(),
            kind: owned("feature-flag"),
            value: owned("true"),
        };
        assert(preview_model(flag) == flags[i as int]);
        out.push(flag);
        assert(out@.map_values(|i: EntitlementPreviewItem| preview_model(i)) =~= prev.map_values(
            |i: EntitlementPreviewItem| preview_model(i),
        ).push(preview_model(flag)));
        assert(flags.take(i + 1) =~= flags.take(i as int).push(flags[i as int]));
        i = i + 1;
        assert(out@.map_values(|i: EntitlementPreviewItem| preview_model(i)) =~= flags.take(i as int));
    }
    assert(flags.take(flags.len() as int) =~= flags);
    let mut j: usize = 0;
    while j < t.quotas.len()
        invariant
            j <= t.quotas@.len(),
            quotas == t.quotas@.map_values(|q: (String, u64)| (q.0@, "quota"@, int_decimal(q.1 as int))),
            out@.map_values(|i: EntitlementPreviewItem| preview_model(i)) == flags + quotas.take(j as int),
        decreases t.quotas@.len() - j,
    {
        let (key, amount) = &t.quotas[j];
        let ghost prev = out@;
        let quota = EntitlementPreviewItem { key: key.clone(), kind: owned("quota"), value: u64_text(*amount) };
        assert(preview_model(quota) == quotas[j as int]);
        out.push(quota);
        assert(out@.map_values(|i: EntitlementPreviewItem| preview_model(i)) =~= prev.map_values(
            |i: EntitlementPreviewItem| preview_model(i),
        ).push(preview_model(quota)));
        assert(flags + quotas.take(j + 1) =~= (flags + quotas.take(j as int)).push(quotas[j as int]));
        j = j + 1;
        assert(out@.map_values(|i: EntitlementPreviewItem| preview_model(i)) =~= flags + quotas.take(j as int));
    }
    assert(quotas.take(quotas.len() as int) =~= quotas);
    match t.credit_balance_minor {
        Some(c) => {
            let ghost prev = out@;
            let credit = EntitlementPreviewItem {
                key: owned("credit_balance_minor"),
                kind: owned("credits"),
                value: i64_text(c),
            };
            out.push(credit);
            assert(out@.map_values(|i: EntitlementPreviewItem| preview_model(i)) =~= prev.map_values(
                |i: EntitlementPreviewItem| preview_model(i),
            ).push(preview_model(credit)));
            assert(out@.map_values(|i: EntitlementPreviewItem| preview_model(i)) =~= preview_of(item.entitlement_template));
        },
        None => {},
    }
    out
}

/// Everything an activation rests on.
#[derive(Debug, Clone)]
pub struct ActivationSeed {
    pub subscription: SubscriptionRecord,
    pub catalog_item: CatalogItem,
    pub opening_balance_currency_code: String,
    pub opening_balance_minor: i64,
    pub manual_review_reason: Option<String>,
}

/// Why the activation goes to a person: a forced review (with the
/// operator's reason, or a default one), else what the plan calls for. An
/// operator's reason without a forced review is not used.
pub open spec fn activation_review_reason(i: ActivateSubscriptionInput, item: CatalogItem) -> Option<Seq<char>> {
    if i.force_manual_review == Some(true) {
        match i.manual_review_reason {
            Some(r) => Some(r@),
            None => Some("manual review requested by operator"@),
        }
    } else {
        inferred_review(item)
    }
}

/// The catalog plan an activation resolves to: the one named in the run,
/// else the subscription's.
pub open spec fn plan_id(i: ActivateSubscriptionInput, sub: SubscriptionRecord) -> Option<u128> {
    match i.catalog_item_id {
        Some(c) => Some(c),
        None => sub.catalog_item_id,
    }
}

/// Gathers what an activation rests on. Refused, in this order: an unknown
/// subscription (`NotFound`), no catalog plan to resolve to
/// (`FailedPrecondition`), an unknown plan (`NotFound`). `catalog` is the
/// plan under the resolved id, where the CRM has one.
pub fn load_activation_seed(
    inputs: &ActivateSubscriptionInput,
    subscription: Option<&SubscriptionRecord>,
    catalog: Option<&CatalogItem>,
) -> (r: Result<ActivationSeed, Status>)
    requires
        catalog matches Some(c) ==> subscription matches Some(s) && plan_id(*inputs, *s) == Some(c.id),
    ensures
        match subscription {
            None => r matches Err(s) && s.code == StatusCode::NotFound && s.message@ == "subscription not found: "@
                + uuid_hyphenated(inputs.subscription_id),
            Some(sub) => match plan_id(*inputs, *sub) {
                None => r matches Err(s) && s.code == StatusCode::FailedPrecondition && s.message@
                    == "subscription does not resolve to a catalog plan"@,
                Some(pid) => match catalog {
                    None => r matches Err(s) && s.code == StatusCode::NotFound && s.message@ == "catalog item not found: "@
                        + uuid_hyphenated(pid),
                    Some(item) => r matches Ok(seed) && {
                        &&& seed.subscription.id == sub.id
                        &&& seed.subscription.organization_id == sub.organization_id
                        &&& seed.catalog_item.id == item.id
                        &&& seed.catalog_item.sku@ == item.sku@
                        &&& seed.opening_balance_currency_code@ == match inputs.opening_balance_currency_code {
                            Some(c) => c@,
                            None => sub.currency_code@,
                        }
                        &&& seed.opening_balance_minor == match inputs.opening_balance_minor {
                            Some(v) => v,
                            None => 0,
                        }
                        &&& opt_text(seed.manual_review_reason) == activation_review_reason(*inputs, *item)
                    },
                },
            },
        },
{
    let sub = match subscription {
        Some(s) => s,
        None => {
            let id = uuid_text(inputs.subscription_id);
            return Err(Status { code: StatusCode::NotFound, message: concat2("subscription not found: ", id.as_str()) });
        },
    };
    let pid = match inputs.catalog_item_id {
        Some(c) => c,
        None => match sub.catalog_item_id {
            Some(c) => c,
            None => {
                return Err(
                    Status {
                        code: StatusCode::FailedPrecondition,
                        message: owned("subscription does not resolve to a catalog plan"),
                    },
                );
            },
        },
    };
    let item = match catalog {
        Some(c) => c,
        None => {
            let id = uuid_text(pid);
            return Err(Status { code: StatusCode::NotFound, message: concat2("catalog item not found: ", id.as_str()) });
        },
    };
    let reason = if inputs.force_manual_review == Some(true) {
        match &inputs.manual_review_reason {
            Some(r) => Some(r.clone()),
            None => Some(owned("manual review requested by operator")),
        }
    } else {
        infer_manual_review_reason(item)
    };
    Ok(
        ActivationSeed {
            subscription: SubscriptionRecord {
                id: sub.id,
                organization_id: sub.organization_id,
                catalog_item_id: sub.catalog_item_id,
                currency_code: sub.currency_code.clone(),
            },
            catalog_item: item.copy(),
            opening_balance_currency_code: match &inputs.opening_balance_currency_code {
                Some(c) => c.clone(),
                None => sub.currency_code.clone(),
            },
            opening_balance_minor: match inputs.opening_balance_minor {
                Some(v) => v,
                None => 0,
            },
            manual_review_reason: reason,
        },
    )
}

/// The description of an opening balance: `Opening balance for {sku}`.
pub fn opening_balance_description(sku: &str) -> (r: String)
    ensures
        r@ == "Opening balance for "@ + sku@,
{
    concat2("Opening balance for ", sku)
}

/// Only enterprise custom plans, custom billing periods and forced reviews
/// send an activation to a person.
pub proof fn law_review_only_when_called_for(i: ActivateSubscriptionInput, item: CatalogItem)
    ensures
        activation_review_reason(i, item) is Some <==> (i.force_manual_review == Some(true)
            || item.plan_kind == CatalogPlanKind::EnterpriseCustom || item.billing_period == Some(
            BillingPeriod::Custom,
        )),
{
}

} // verus!
