use std::collections::HashMap;

use application_server::contracts::CreditPaymentStatus;
use application_server::names::WorkflowState;
use application_server::truths::suspend_service_on_payment_failure::{suspension_projection_plan, CasePriority};
use application_server::runtime::StatusCode;
use application_server::truths::activate_subscription::{
    entitlement_preview_items, infer_manual_review_reason, load_activation_seed,
    opening_balance_description, ActivateSubscriptionInput, BillingPeriod, CatalogItem,
    CatalogPlanKind, EntitlementTemplate, SubscriptionRecord,
};
use application_server::truths::evaluate_acquisition_target::{
    build_dd_plans, collect_contradictions, contradiction_gate_accepts, dd_intent_text,
    dd_scope_id, EvaluateAcquisitionTargetInput, ReasoningSystem,
};
use application_server::truths::match_renewal_context::{
    negotiation_brief, renewal_signal_queries, renewal_terms, signal_from_entry, signal_statement,
    summarize, terms_statement, MatchRenewalContextInput, RenewalSignal,
};
use application_server::truths::plan_outbound_campaign::{
    budget_status, campaign_slug, capacity_status, default_priority, related_organizations,
    PlanOutboundCampaignInput, RepCapacity,
};
use application_server::truths::reconcile_model_usage_against_customer_ledger::{
    assess_reconciliation, entitlement_snapshot, exception_route, ledger_snapshot, load_usage,
    threshold_of, unknown_subscription, EntitlementReading, LedgerEntryKind, LedgerEntryRecord,
    LedgerSnapshot, ProviderBillingSnapshot, ReconcileModelUsageAgainstCustomerLedgerInput,
    ReconciliationOutcome, UsageSnapshot, EntitlementSnapshot,
};
use application_server::truths::refill_prepaid_ai_credits::{
    decide_refill, grant_fact_statements, load_refill_seed, payment_status_from_inputs,
    CreditBalance, CreditSubscription, RefillDecision, RefillPrepaidAiCreditsInput,
};
use application_server::truths::schedule_strategic_meetings::{
    compute_readiness_score, compute_strategy_score, rank_candidates, slug, ProspectSeed,
    StrategyContext,
};
use application_server::truths::score_inbound_fit::{
    fit_label, fit_score_statement, require_usage_events, usage_events_csv, ScoreInboundFitInput,
    UsageEventSeed,
};
use application_server::truths::suspend_service_on_payment_failure::{
    decide_suspension, load_suspension_seed, payment_failure_status, recovery_path,
    PaymentFailureStatus, SuspendServiceOnPaymentFailureInput, SuspensionAccount,
    SuspensionDecision,
};

const SUB: u128 = 0x6fa459ea_ee8a_3ca4_894e_db77e160355e;
const SUB_TEXT: &str = "6fa459ea-ee8a-3ca4-894e-db77e160355e";
const ORG: u128 = 0x0000_0000_0000_4000_8000_0000_0000_0001;

fn map(pairs: &[(&str, &str)]) -> HashMap<String, String> {
    pairs.iter().map(|(k, v)| (k.to_string(), v.to_string())).collect()
}

#[test]
fn activate_subscription_missing_subscription_id_returns_error() {
    let result = ActivateSubscriptionInput::from_map(&HashMap::new());
    assert!(result.is_err());
    let status = result.unwrap_err();
    assert_eq!(status.code, StatusCode::InvalidArgument);
}

#[test]
fn input_parsing_requires_target_company() {
    let inputs = HashMap::new();
    assert!(EvaluateAcquisitionTargetInput::from_map(&inputs).is_err());
}

#[test]
fn input_parsing_accepts_minimal_inputs() {
    let mut inputs = HashMap::new();
    inputs.insert("target_company".to_string(), "Acme Corp".to_string());
    let parsed = EvaluateAcquisitionTargetInput::from_map(&inputs).unwrap();
    assert_eq!(parsed.target_company, "Acme Corp");
    assert!(parsed.focus_areas.is_none());
    assert!(parsed.max_searches.is_none());
}

#[test]
fn dd_plans_cover_four_research_vectors() {
    let plans = build_dd_plans("TestCo");
    assert_eq!(plans.len(), 4);
    assert_eq!(plans[0].contributor, ReasoningSystem::DomainModel);
    assert_eq!(plans[1].contributor, ReasoningSystem::CausalAnalysis);
    assert_eq!(plans[2].contributor, ReasoningSystem::ConstraintSolver);
    assert_eq!(plans[3].contributor, ReasoningSystem::CostEstimation);
}

fn prospect(
    name: &str,
    fit: u16,
    stage: &str,
    days: u32,
    value_score: Option<u32>,
    territory: Option<&str>,
    segment: Option<&str>,
    tags: &[&str],
) -> ProspectSeed {
    ProspectSeed {
        organization_id: None,
        name: name.to_string(),
        contact_name: None,
        contact_email: None,
        fit_score_bps: Some(fit),
        pipeline_stage: Some(stage.to_string()),
        last_contact_days_ago: Some(days),
        estimated_value_score: value_score,
        territory: territory.map(str::to_string),
        segment: segment.map(str::to_string),
        tags: tags.iter().map(|t| t.to_string()).collect(),
    }
}

#[test]
fn ranking_prefers_strategy_aligned_prospects() {
    let strategy = StrategyContext {
        target_segments: vec!["mid-market".to_string()],
        priority_territories: vec!["nordics".to_string()],
        focus_tags: vec!["ai-interested".to_string()],
        campaign_id: None,
    };
    // An estimated value of 50 000 earns 1 000 points, one of 10 000 earns 200.
    let aligned = prospect(
        "Aligned Corp",
        7_000,
        "qualified",
        2,
        Some(1_000),
        Some("nordics"),
        Some("mid-market"),
        &["ai-interested"],
    );
    let unaligned =
        prospect("Random Inc", 3_000, "new", 60, Some(200), Some("apac"), Some("smb"), &[]);

    let aligned_score = compute_strategy_score(&aligned, &strategy);
    let unaligned_score = compute_strategy_score(&unaligned, &strategy);
    assert!(
        aligned_score > unaligned_score,
        "aligned prospect ({aligned_score}) should outscore unaligned ({unaligned_score})"
    );

    let aligned_readiness = compute_readiness_score(&aligned);
    let unaligned_readiness = compute_readiness_score(&unaligned);
    assert!(
        aligned_readiness > unaligned_readiness,
        "aligned prospect readiness ({aligned_readiness}) should outscore unaligned ({unaligned_readiness})"
    );
}

#[test]
fn empty_strategy_still_ranks_by_fit_and_readiness() {
    let strategy = StrategyContext::default();
    // An estimated value of 100 000 earns the full 2 000 points.
    let high_fit = prospect("High Fit", 9_000, "qualified", 1, Some(2_000), None, None, &[]);
    let low_fit = prospect("Low Fit", 2_000, "new", 30, None, None, None, &[]);

    let high_strategy = compute_strategy_score(&high_fit, &strategy);
    let low_strategy = compute_strategy_score(&low_fit, &strategy);
    assert!(high_strategy > low_strategy);
}

#[test]
fn strategy_score_adds_each_alignment() {
    let strategy = StrategyContext {
        target_segments: vec!["mid-market".to_string()],
        priority_territories: vec!["nordics".to_string()],
        focus_tags: vec!["ai".to_string(), "fast".to_string()],
        campaign_id: None,
    };
    // 2 000 base + 30% of 7 000 + 1 500 segment + 1 000 territory + 2 tags of 500.
    let p = prospect("A", 7_000, "qualified", 2, None, Some("nordics"), Some("mid-market"), &["ai", "fast", "x"]);
    assert_eq!(compute_strategy_score(&p, &strategy), 7_600);
    let capped = prospect("B", 10_000, "qualified", 2, None, Some("nordics"), Some("mid-market"), &["ai", "fast", "ai", "fast"]);
    assert_eq!(compute_strategy_score(&capped, &strategy), 9_000);
}

#[test]
fn ranking_orders_by_combined_score_and_keeps_the_requested_count() {
    let strategy = StrategyContext::default();
    let prospects = vec![
        prospect("Low", 1_000, "new", 90, None, None, None, &[]),
        prospect("High", 9_500, "negotiation", 1, Some(2_000), None, None, &[]),
        prospect("Mid", 5_000, "discovery", 10, Some(500), None, None, &[]),
    ];
    // One meeting requested: twice as many candidates are kept.
    let ranked = rank_candidates(&prospects, &strategy, 1);
    assert_eq!(ranked.len(), 2);
    assert_eq!(ranked[0].prospect.name, "High");
    assert_eq!(ranked[1].prospect.name, "Mid");
    assert_eq!(ranked[0].rank, 1);
    assert_eq!(ranked[1].rank, 2);
    assert!(ranked[0].combined_score_bps >= ranked[1].combined_score_bps);
}

#[test]
fn slugs_keep_letters_and_digits() {
    assert_eq!(slug("Q2 Outbound -- West!"), "q2-outbound-west");
    assert_eq!(campaign_slug("!!!"), "campaign");
}

#[test]
fn acquisition_scope_and_contradictions() {
    assert_eq!(dd_scope_id("Acme Corp"), "dd:acme-corp");
    assert_eq!(dd_intent_text("Acme"), "Build a due diligence brief for Acme");
    let ids = vec![
        "contradiction-1".to_string(),
        "hypothesis-2".to_string(),
        "contradiction-3".to_string(),
    ];
    assert_eq!(collect_contradictions(&ids), vec!["contradiction-1", "contradiction-3"]);
    assert!(contradiction_gate_accepts(&ids));
    assert!(!contradiction_gate_accepts(&vec!["hypothesis-2".to_string()]));
    let mut reviewed = ids.clone();
    reviewed.push("dd:human-review-required".to_string());
    assert!(!contradiction_gate_accepts(&reviewed));
}

fn refill_input(amount: Option<i64>, confirmed: Option<bool>, status: Option<&str>) -> RefillPrepaidAiCreditsInput {
    RefillPrepaidAiCreditsInput {
        subscription_id: SUB,
        top_up_amount_minor: amount,
        payment_reference: "pay_topup_123".to_string(),
        payment_confirmed: confirmed,
        payment_status: status.map(str::to_string),
        risk_signal: None,
        force_manual_review: None,
        manual_review_reason: None,
    }
}

fn credit_subscription(active: bool, balance: CreditBalance) -> CreditSubscription {
    CreditSubscription {
        subscription_id: SUB,
        organization_id: ORG,
        active,
        currency_code: "USD".to_string(),
        credit_balance: balance,
    }
}

#[test]
fn refill_input_reads_the_subscription_first() {
    let err = RefillPrepaidAiCreditsInput::from_map(&map(&[("payment_reference", "p")])).unwrap_err();
    assert_eq!(err.code, StatusCode::InvalidArgument);
    assert_eq!(err.message, "missing required input: subscription_id");
    let bad = RefillPrepaidAiCreditsInput::from_map(&map(&[("subscription_id", "nope")])).unwrap_err();
    assert_eq!(bad.code, StatusCode::InvalidArgument);
    let ok = RefillPrepaidAiCreditsInput::from_map(&map(&[
        ("subscription_id", SUB_TEXT),
        ("payment_reference", "pay_1"),
        ("top_up_amount_minor", "250000"),
        ("payment_status", "confirmed"),
    ]))
    .unwrap();
    assert_eq!(ok.subscription_id, SUB);
    assert_eq!(ok.top_up_amount_minor, Some(250_000));
    assert_eq!(payment_status_from_inputs(&ok), CreditPaymentStatus::Confirmed);
}

#[test]
fn confirmed_refill_grants_the_top_up() {
    let input = refill_input(Some(250_000), None, Some("confirmed"));
    let sub = credit_subscription(true, CreditBalance::Credits(100_000));
    let seed = load_refill_seed(&input, Some(&sub)).unwrap();
    assert!(seed.manual_review_reason.is_none());
    match decide_refill(&seed) {
        RefillDecision::Grant { previous_balance_minor, resulting_balance_minor, amount_minor, .. } => {
            assert_eq!(previous_balance_minor, 100_000);
            assert_eq!(amount_minor, 250_000);
            assert_eq!(resulting_balance_minor, 350_000);
        }
        other => panic!("unexpected {:?}", other),
    }
    let (applied, changed) = grant_fact_statements("pay_topup_123", 250_000, "USD", 100_000, 350_000);
    assert_eq!(applied, "confirmed prepaid top-up pay_topup_123 applied for 250000 USD");
    assert_eq!(changed, "credit balance increased from 100000 to 350000");
}

#[test]
fn refill_blocks_when_payment_is_unconfirmed() {
    let input = refill_input(Some(250_000), None, Some("pending"));
    let seed = load_refill_seed(&input, Some(&credit_subscription(true, CreditBalance::Credits(0)))).unwrap();
    match decide_refill(&seed) {
        RefillDecision::ManualReview { reason } => {
            assert_eq!(reason, "payment pending is not confirmed; credit grant is blocked")
        }
        other => panic!("unexpected {:?}", other),
    }
    let large = refill_input(Some(1_000_000), Some(true), None);
    let seed = load_refill_seed(&large, Some(&credit_subscription(true, CreditBalance::Credits(0)))).unwrap();
    assert_eq!(
        seed.manual_review_reason.as_deref(),
        Some("top-up size exceeds the automatic approval threshold")
    );
}

#[test]
fn refill_refusals_come_in_order() {
    let zero = refill_input(Some(0), Some(true), None);
    let e = load_refill_seed(&zero, None).unwrap_err();
    assert_eq!(e.code, StatusCode::InvalidArgument);
    assert_eq!(e.message, "top_up_amount_minor must be positive");
    let input = refill_input(Some(100_000), Some(true), None);
    let e = load_refill_seed(&input, None).unwrap_err();
    assert_eq!(e.code, StatusCode::NotFound);
    assert_eq!(e.message, format!("subscription not found: {SUB_TEXT}"));
    let e = load_refill_seed(&input, Some(&credit_subscription(false, CreditBalance::Credits(0)))).unwrap_err();
    assert_eq!(e.code, StatusCode::FailedPrecondition);
    assert_eq!(e.message, "refill requires an active subscription");
    let e = load_refill_seed(&input, Some(&credit_subscription(true, CreditBalance::Missing))).unwrap_err();
    assert_eq!(e.message, "refill requires an existing credit balance entitlement");
    let e = load_refill_seed(&input, Some(&credit_subscription(true, CreditBalance::OtherSemantics))).unwrap_err();
    assert_eq!(e.message, "credit balance entitlement must use credits semantics");
}

#[test]
fn sequential_refills_accumulate_balance() {
    let initial_balance: i64 = 0;
    let mut first = refill_input(Some(100_000), None, Some("confirmed"));
    first.payment_reference = "pay_seq_first".to_string();
    let sub = credit_subscription(true, CreditBalance::Credits(initial_balance));
    let after_first = match decide_refill(&load_refill_seed(&first, Some(&sub)).unwrap()) {
        RefillDecision::Grant { resulting_balance_minor, .. } => resulting_balance_minor,
        other => panic!("unexpected {:?}", other),
    };
    let mut second = refill_input(Some(50_000), None, Some("confirmed"));
    second.payment_reference = "pay_seq_second".to_string();
    let sub = credit_subscription(true, CreditBalance::Credits(after_first));
    let final_balance = match decide_refill(&load_refill_seed(&second, Some(&sub)).unwrap()) {
        RefillDecision::Grant { resulting_balance_minor, .. } => resulting_balance_minor,
        other => panic!("unexpected {:?}", other),
    };
    assert_eq!(final_balance, initial_balance + 100_000 + 50_000);
}

fn suspension_input(status: &str, days: Option<i64>, strategic: Option<bool>) -> SuspendServiceOnPaymentFailureInput {
    SuspendServiceOnPaymentFailureInput {
        subscription_id: SUB,
        payment_status: status.to_string(),
        days_overdue: days,
        grace_days: None,
        force_manual_review: None,
        manual_review_reason: None,
        strategic_account: strategic,
    }
}

fn account(tags: &[&str]) -> SuspensionAccount {
    SuspensionAccount {
        subscription_id: SUB,
        active: true,
        organization_id: ORG,
        organization_tags: Some(tags.iter().map(|t| t.to_string()).collect()),
    }
}

#[test]
fn failed_payment_suspends_at_once() {
    let seed = load_suspension_seed(&suspension_input("failed", None, None), Some(&account(&[]))).unwrap();
    match decide_suspension(&seed) {
        SuspensionDecision::Suspend { reason } => {
            assert_eq!(reason, "service suspended immediately after payment failure")
        }
        other => panic!("unexpected {:?}", other),
    }
    let (summary, next) = recovery_path(true, PaymentFailureStatus::Failed, 7);
    assert_eq!(summary, "customer must clear the failed payment failure before access is reinstated");
    assert_eq!(next, "collect payment and route to reinstatement review");
}

#[test]
fn overdue_payment_respects_grace_period() {
    let seed = load_suspension_seed(&suspension_input(" Past_Due ", Some(3), None), Some(&account(&[]))).unwrap();
    assert_eq!(seed.grace_days, 7);
    match decide_suspension(&seed) {
        SuspensionDecision::Defer { reason } => {
            assert_eq!(reason, "service remains active during grace period (3 of 7 days overdue)")
        }
        other => panic!("unexpected {:?}", other),
    }
    let seed = load_suspension_seed(&suspension_input("overdue", Some(9), None), Some(&account(&[]))).unwrap();
    match decide_suspension(&seed) {
        SuspensionDecision::Suspend { reason } => {
            assert_eq!(reason, "service suspended after 9 overdue days exceeded grace of 7")
        }
        other => panic!("unexpected {:?}", other),
    }
}

#[test]
fn strategic_accounts_go_to_review() {
    let seed = load_suspension_seed(&suspension_input("failed", None, None), Some(&account(&[" VIP "]))).unwrap();
    match decide_suspension(&seed) {
        SuspensionDecision::ManualReview { reason } => {
            assert_eq!(reason, "strategic account suspension requires approval")
        }
        other => panic!("unexpected {:?}", other),
    }
    let flagged_off = load_suspension_seed(&suspension_input("failed", None, Some(false)), Some(&account(&["strategic"]))).unwrap();
    assert!(flagged_off.manual_review_reason.is_none());
}

#[test]
fn unsupported_failure_words_are_refused() {
    let e = payment_failure_status(" Refunded ").unwrap_err();
    assert_eq!(e.code, StatusCode::InvalidArgument);
    assert_eq!(e.message, "unsupported payment_status for suspension: refunded");
    assert_eq!(payment_failure_status("DECLINED").unwrap(), PaymentFailureStatus::Failed);
    let e = load_suspension_seed(&suspension_input("failed", None, None), None).unwrap_err();
    assert_eq!(e.code, StatusCode::NotFound);
}

fn usage(burn: i64) -> UsageSnapshot {
    UsageSnapshot { burn_minor: burn, meter_name: "m".to_string(), period_label: "p".to_string() }
}

fn provider(settled: i64) -> ProviderBillingSnapshot {
    ProviderBillingSnapshot {
        settled_minor: settled,
        provider_reference: "r".to_string(),
        provider_name: "stripe".to_string(),
        status: "settled".to_string(),
    }
}

fn entitlement(balance: i64) -> EntitlementSnapshot {
    EntitlementSnapshot { credit_balance_minor: balance, service_access_state: "active".to_string() }
}

#[test]
fn reconciliation_closes_clean_without_drift() {
    let entries = vec![
        LedgerEntryRecord { subscription_id: SUB, kind: LedgerEntryKind::OpeningBalance, amount_minor: 100_000 },
        LedgerEntryRecord { subscription_id: SUB, kind: LedgerEntryKind::Debit, amount_minor: 40_000 },
        LedgerEntryRecord { subscription_id: ORG, kind: LedgerEntryKind::Debit, amount_minor: 7 },
    ];
    let ledger = ledger_snapshot(&entries, SUB);
    assert_eq!(
        ledger,
        LedgerSnapshot { opening_balance_minor: 100_000, credit_grants_minor: 0, debits_minor: 40_000, adjustments_minor: 0 }
    );
    let a = assess_reconciliation(SUB, &usage(40_000), &provider(0), &ledger, &entitlement(60_000), true, 10_000);
    assert_eq!(a.outcome, ReconciliationOutcome::Clean);
    assert_eq!(a.summary, "usage/ledger delta 0, provider/ledger delta 0, entitlement delta 0");
    assert_eq!(a.expected_credit_balance_minor, 60_000);
}

#[test]
fn reconciliation_routes_exceptions_and_blocks_large_drift() {
    let ledger = LedgerSnapshot { opening_balance_minor: 100_000, credit_grants_minor: 0, debits_minor: 40_000, adjustments_minor: 0 };
    let small = assess_reconciliation(SUB, &usage(40_500), &provider(0), &ledger, &entitlement(60_000), true, 10_000);
    assert_eq!(small.outcome, ReconciliationOutcome::Exception);
    assert_eq!(small.usage_ledger_delta_minor, 500);
    let large = assess_reconciliation(SUB, &usage(70_000), &provider(0), &ledger, &entitlement(60_000), true, 10_000);
    assert_eq!(large.outcome, ReconciliationOutcome::ManualReview);
    let route = exception_route("x");
    assert_eq!(route.2, "reconciliation drift routed for investigation: x");
}

#[test]
fn reconciliation_inputs_and_snapshots() {
    let input = ReconcileModelUsageAgainstCustomerLedgerInput::from_map(&map(&[
        ("subscription_id", SUB_TEXT),
        ("threshold_minor", "-5"),
        ("usage_burn_minor", "12"),
    ]))
    .unwrap();
    assert_eq!(threshold_of(&input), 0);
    let u = load_usage(&input).unwrap();
    assert_eq!(u.meter_name, "model-token-usage");
    assert_eq!(u.period_label, "current-period");
    let e = entitlement_snapshot(&EntitlementReading::Missing, &EntitlementReading::Missing).unwrap_err();
    assert_eq!(e.message, "reconciliation requires a credit balance entitlement");
    let s = entitlement_snapshot(&EntitlementReading::Credits(5), &EntitlementReading::Text("suspended".to_string())).unwrap();
    assert_eq!(s.service_access_state, "suspended");
    let nf = unknown_subscription(SUB);
    assert_eq!(nf.code, StatusCode::NotFound);
    assert_eq!(nf.message, format!("subscription not found: {SUB_TEXT}"));
}

fn catalog(kind: CatalogPlanKind, period: Option<BillingPeriod>) -> CatalogItem {
    CatalogItem {
        id: 42,
        sku: "prio-growth".to_string(),
        plan_kind: kind,
        billing_period: period,
        entitlement_template: EntitlementTemplate {
            feature_flags: vec!["workspace_access".to_string()],
            quotas: vec![("seats".to_string(), 50)],
            credit_balance_minor: Some(250_000),
        },
    }
}

#[test]
fn activation_reviews_only_custom_plans() {
    assert!(infer_manual_review_reason(&catalog(CatalogPlanKind::Standard, Some(BillingPeriod::Annual))).is_none());
    assert_eq!(
        infer_manual_review_reason(&catalog(CatalogPlanKind::EnterpriseCustom, None)).as_deref(),
        Some("enterprise custom plans require manual review")
    );
    assert_eq!(
        infer_manual_review_reason(&catalog(CatalogPlanKind::Standard, Some(BillingPeriod::Custom))).as_deref(),
        Some("custom billing periods require manual review")
    );
}

#[test]
fn activation_previews_entitlements_and_loads_its_seed() {
    let item = catalog(CatalogPlanKind::Standard, Some(BillingPeriod::Annual));
    let preview = entitlement_preview_items(&item);
    assert_eq!(preview.len(), 3);
    assert_eq!((preview[0].key.as_str(), preview[0].kind.as_str(), preview[0].value.as_str()), ("workspace_access", "feature-flag", "true"));
    assert_eq!((preview[1].key.as_str(), preview[1].value.as_str()), ("seats", "50"));
    assert_eq!((preview[2].kind.as_str(), preview[2].value.as_str()), ("credits", "250000"));

    let input = ActivateSubscriptionInput::from_map(&map(&[("subscription_id", SUB_TEXT)])).unwrap();
    let sub = SubscriptionRecord { id: SUB, organization_id: ORG, catalog_item_id: Some(42), currency_code: "USD".to_string() };
    let seed = load_activation_seed(&input, Some(&sub), Some(&item)).unwrap();
    assert_eq!(seed.opening_balance_currency_code, "USD");
    assert_eq!(seed.opening_balance_minor, 0);
    assert!(seed.manual_review_reason.is_none());
    let none = SubscriptionRecord { id: SUB, organization_id: ORG, catalog_item_id: None, currency_code: "USD".to_string() };
    let e = load_activation_seed(&input, Some(&none), None).unwrap_err();
    assert_eq!(e.code, StatusCode::FailedPrecondition);
    let e = load_activation_seed(&input, None, None).unwrap_err();
    assert_eq!(e.code, StatusCode::NotFound);
    assert_eq!(opening_balance_description("prio-growth"), "Opening balance for prio-growth");
}

fn signal(id: &str, title: &str, summary: &str) -> RenewalSignal {
    RenewalSignal { signal_id: id.to_string(), title: title.to_string(), summary: summary.to_string() }
}

#[test]
fn renewal_brief_weighs_risks_and_opportunities() {
    assert_eq!(renewal_signal_queries().len(), 4);
    let signals = vec![
        signal("competitive-evaluation", "QBR notes", "Customer mentioned competitor evaluation in a QBR."),
        signal("expansion-interest", "Usage", "Seats grew"),
    ];
    let brief = negotiation_brief(&signals).unwrap();
    assert_eq!(brief.risks, vec!["competitive-evaluation: Customer mentioned competitor evaluation in a QBR."]);
    assert_eq!(brief.opportunities, vec!["Seats grew"]);
    assert_eq!(brief.confidence_bps, 7_900);
    assert_eq!(brief.summary, "Renewal brief built from 2 retrieved signals.");
    let terms = renewal_terms(&brief);
    assert!(terms.approval_required);
    assert_eq!(terms.recommendation, "prepare standard renewal with explicit mitigation and approval");
    assert_eq!(terms.confidence_bps, 6_200);
    assert_eq!(
        terms_statement(&terms),
        "Renewal terms recommendation: prepare standard renewal with explicit mitigation and approval (Renewal brief built from 2 retrieved signals.)"
    );
    assert_eq!(signal_statement(&signals[1]), "Renewal signal expansion-interest from Usage: Seats grew");
    assert!(negotiation_brief(&Vec::new()).is_none());
    let calm = negotiation_brief(&vec![signal("expansion-interest", "Usage", "Seats grew")]).unwrap();
    assert_eq!(renewal_terms(&calm).recommendation, "propose expansion-oriented renewal");
    let input = MatchRenewalContextInput::from_map(&map(&[("organization_id", SUB_TEXT), ("opportunity_id", "x")]));
    assert_eq!(input.unwrap_err().code, StatusCode::InvalidArgument);
}

#[test]
fn campaign_checks_capacity_budget_and_organizations() {
    assert_eq!(default_priority(), 5);
    let input = PlanOutboundCampaignInput::from_map(&map(&[
        ("campaign_name", "Q2 outbound"),
        ("prospects_json", "[]"),
        ("reps_json", "[]"),
        ("campaign_budget_minor", "6000"),
    ]))
    .unwrap();
    assert_eq!(input.outreach_cost(), 2_500);
    let bad = PlanOutboundCampaignInput::from_map(&map(&[
        ("campaign_name", "Q2"),
        ("prospects_json", "[]"),
        ("reps_json", "[]"),
        ("campaign_budget_minor", "lots"),
    ]))
    .unwrap_err();
    assert_eq!(bad.code, StatusCode::InvalidArgument);
    assert!(bad.message.starts_with("invalid campaign_budget_minor: "));
    let reps = vec![RepCapacity { capacity: 5, current_load: 2 }, RepCapacity { capacity: 3, current_load: 4 }];
    let c = capacity_status(&reps);
    assert_eq!((c.total_capacity, c.total_available_capacity, c.rep_count), (8, 3, 2));
    let b = budget_status(3, 2_500, 6_000);
    assert_eq!(b.estimated_spend_minor, 7_500);
    assert!(!b.within_budget);
    assert!(b.approval_required);
    assert!(budget_status(2, 2_500, 6_000).within_budget);
    assert_eq!(related_organizations(&vec![Some(9), None, Some(3), Some(9)]), vec![3, 9]);
}

#[test]
fn inbound_fit_helpers() {
    let missing = ScoreInboundFitInput::from_map(&map(&[("organization_name", "Aprio Labs")])).unwrap_err();
    assert_eq!(missing.message, "missing required input: visitor_id");
    assert!(require_usage_events(0).is_err());
    assert!(require_usage_events(2).is_ok());
    let events = vec![UsageEventSeed {
        visitor_id: "visitor-123".to_string(),
        timestamp: 1_710_000_000,
        event_type: "page_view".to_string(),
        page: "/pricing".to_string(),
    }];
    assert_eq!(usage_events_csv(&events), "visitor_id,timestamp,event_type,page\nvisitor-123,1710000000,page_view,/pricing\n");
    assert_eq!(fit_label(8_000), "high-fit");
    assert_eq!(fit_label(5_500), "medium-fit");
    assert_eq!(fit_label(5_499), "low-fit");
    assert_eq!(
        fit_score_statement(7_420, "medium-fit", "pricing visits"),
        "Inbound fit score 7420 bps (medium-fit) with rationale: pricing visits"
    );
}

#[test]
fn retrieved_texts_are_shortened_to_their_byte_budget() {
    assert_eq!(summarize("  short text  ", 180), "short text");
    let long = "x".repeat(200);
    let s = summarize(&long, 180);
    assert_eq!(s.len(), 180);
    assert!(s.ends_with("..."));
    assert_eq!(&s[..177], &long[..177]);
    assert_eq!(summarize("abcdef", 2), "...");
    // "é" takes two bytes: a cut after 4 bytes keeps two of them.
    assert_eq!(summarize("éééééé", 7), "éé...");
    let signal = signal_from_entry("support-incident", "Q3 incident review", &long);
    assert_eq!(signal.summary.len(), 180);
    assert_eq!(signal.title, "Q3 incident review");
}

#[test]
fn each_suspension_decision_plans_its_projection() {
    let review = SuspensionDecision::ManualReview { reason: "strategic account suspension requires approval".to_string() };
    let plan = suspension_projection_plan(SUB, &review, PaymentFailureStatus::Failed, 7);
    assert!(!plan.suspend);
    assert_eq!(plan.case_title, format!("Manual review: suspend service for {SUB_TEXT}"));
    assert_eq!(plan.case_priority, CasePriority::Critical);
    assert_eq!(plan.case_state, WorkflowState::AwaitingApproval);
    assert_eq!(plan.fact_statements, vec!["service suspension awaiting manual review: strategic account suspension requires approval"]);
    let suspend = SuspensionDecision::Suspend { reason: "x".to_string() };
    let plan = suspension_projection_plan(SUB, &suspend, PaymentFailureStatus::Failed, 7);
    assert!(plan.suspend);
    assert_eq!(plan.case_title, format!("Payment recovery required for {SUB_TEXT}"));
    assert_eq!(plan.case_priority, CasePriority::High);
    assert_eq!(plan.case_state, WorkflowState::WaitingExternal);
    assert_eq!(
        plan.fact_statements,
        vec![
            "service suspended after failed payment state",
            "customer must clear the failed payment failure before access is reinstated"
        ]
    );
    assert_eq!(plan.fact_confidence_bps, 10_000);
    let defer = SuspensionDecision::Defer { reason: "service remains active during grace period (3 of 7 days overdue)".to_string() };
    let plan = suspension_projection_plan(SUB, &defer, PaymentFailureStatus::Overdue, 7);
    assert_eq!(plan.case_title, format!("Grace period: payment recovery for {SUB_TEXT}"));
    assert_eq!(
        plan.fact_statements,
        vec![
            "service remains active during grace period (3 of 7 days overdue)",
            "customer remains in grace while payment recovery is pursued for 7 days"
        ]
    );
}
