use std::collections::HashMap;

use application_server::billing::{
    authorize_billing_ingress, constant_time_eq, ingress_actor, normalize_billing_event, ApiError,
    BillingAdmission, BillingExecutionSummary, BillingIdempotencyLedger, BillingIngress,
    BillingIngressRequest, BillingIngressResponse, BillingProjectionSummary, IngressStep,
};
use application_server::runtime::{Status, StatusCode, TruthExecutionArtifacts};
use application_server::contracts::BillingEventKind;

fn top_up(event_id: &str, amount: Option<i64>) -> BillingIngressRequest {
    BillingIngressRequest {
        source: " converge-runtime ".to_string(),
        event_id: event_id.to_string(),
        event_kind: BillingEventKind::PrepaidTopUpSettled,
        idempotency_key: None,
        subscription_id: Some("6fa459ea-ee8a-3ca4-894e-db77e160355e".to_string()),
        catalog_item_id: None,
        payment_reference: Some("pi_topup_1".to_string()),
        amount_minor: amount,
        opening_balance_minor: None,
        currency_code: Some("USD".to_string()),
        payment_status: Some("confirmed".to_string()),
        risk_signal: None,
        days_overdue: None,
        grace_days: None,
        strategic_account: None,
        usage_burn_minor: None,
        provider_settled_minor: None,
        provider_reference: None,
        provider_name: None,
        provider_status: None,
        threshold_minor: None,
        force_manual_review: None,
        manual_review_reason: None,
        persist_projection: None,
        attributes: HashMap::new(),
    }
}

#[test]
fn billing_event_requires_auth() {
    let mut request = top_up("evt_auth", Some(10_000));
    request.subscription_id = Some("missing".to_string());
    request.payment_reference = Some("pi_auth".to_string());
    request.persist_projection = Some(true);
    let mut ingress = BillingIngress::new(Some("secret".to_string()));
    let e = ingress.accept_webhook(None, request).unwrap_err();
    assert_eq!(e.status, 401);
}

#[test]
fn authorization_refusals_name_their_cause() {
    let e = authorize_billing_ingress(Some("secret"), None).unwrap_err();
    assert_eq!(e.status, 401);
    assert_eq!(e.message, "missing bearer token for billing ingress");
    let e = authorize_billing_ingress(Some("secret"), Some("Bearer wrong")).unwrap_err();
    assert_eq!(e.status, 401);
    assert_eq!(e.message, "invalid bearer token for billing ingress");
    let e = authorize_billing_ingress(None, Some("Bearer secret")).unwrap_err();
    assert_eq!(e.status, 503);
    assert!(authorize_billing_ingress(Some("secret"), Some("Bearer secret")).is_ok());
    assert!(constant_time_eq(b"abc", b"abc"));
    assert!(!constant_time_eq(b"abc", b"abd"));
    assert!(!constant_time_eq(b"abc", b"ab"));
}

#[test]
fn billing_event_rejects_missing_required_fields() {
    let mut request = top_up("evt_missing", None);
    request.event_kind = BillingEventKind::LedgerReconciliationRequested;
    request.subscription_id = None;
    request.payment_reference = None;
    request.currency_code = None;
    request.payment_status = None;
    request.usage_burn_minor = Some(10_000);
    request.provider_settled_minor = Some(10_000);
    request.persist_projection = Some(true);
    let mut ingress = BillingIngress::new(Some("secret".to_string()));
    let e = ingress.accept_webhook(Some("Bearer secret"), request).unwrap_err();
    assert_eq!(e.status, 400);
    assert_eq!(e.message, "subscription_id is required");
}

#[test]
fn normalization_names_the_missing_field() {
    let e = normalize_billing_event(top_up("evt_missing", None)).unwrap_err();
    assert_eq!(e.status, 400);
    assert_eq!(e.message, "amount_minor is required");
    let mut blank = top_up("evt_blank", Some(10_000));
    blank.subscription_id = Some("   ".to_string());
    assert_eq!(normalize_billing_event(blank).unwrap_err().message, "subscription_id is required");
    let e = normalize_billing_event(top_up("  ", Some(1))).unwrap_err();
    assert_eq!(e.message, "event_id is required");
}

#[test]
fn billing_event_normalizes_into_truth_inputs() {
    let mut request = top_up("evt_topup_1", Some(25_000));
    request.attributes.insert("channel".to_string(), "web".to_string());
    request.attributes.insert("payment_status".to_string(), "ignored".to_string());
    let ev = normalize_billing_event(request).unwrap();
    assert_eq!(ev.source, "converge-runtime");
    assert_eq!(ev.truth_key, "refill-prepaid-ai-credits");
    assert_eq!(ev.idempotency_key, "converge-runtime:refill-prepaid-ai-credits:evt_topup_1");
    assert_eq!(ev.inputs.get("top_up_amount_minor").map(String::as_str), Some("25000"));
    assert_eq!(ev.inputs.get("payment_reference").map(String::as_str), Some("pi_topup_1"));
    assert_eq!(ev.inputs.get("payment_status").map(String::as_str), Some("confirmed"));
    assert_eq!(ev.inputs.get("channel").map(String::as_str), Some("web"));
    assert!(ev.persist_projection);
}

fn response(key: &str) -> BillingIngressResponse {
    BillingIngressResponse {
        source: "converge-runtime".to_string(),
        event_id: "evt_topup_dup".to_string(),
        event_kind: BillingEventKind::PrepaidTopUpSettled,
        truth_key: "refill-prepaid-ai-credits".to_string(),
        idempotency_key: key.to_string(),
        duplicate: false,
        in_flight: false,
        execution: None,
        projection: None,
    }
}

#[test]
fn idempotency_ledger_answers_repeats_as_duplicates() {
    let mut request = top_up("evt_topup_dup", Some(15_000));
    request.idempotency_key = Some("dedupe-topup-1".to_string());
    let ev = normalize_billing_event(request).unwrap();
    let mut ledger = BillingIdempotencyLedger::new();
    assert!(matches!(ledger.accept(&ev), BillingAdmission::Execute));
    match ledger.accept(&ev) {
        BillingAdmission::Answered(a) => {
            assert!(a.duplicate);
            assert!(a.in_flight);
        }
        BillingAdmission::Execute => panic!("an in-flight event must not run twice"),
    }
    ledger.complete("dedupe-topup-1", response("dedupe-topup-1"));
    match ledger.accept(&ev) {
        BillingAdmission::Answered(a) => {
            assert!(a.duplicate);
            assert!(!a.in_flight);
            assert_eq!(a.idempotency_key, "dedupe-topup-1");
        }
        BillingAdmission::Execute => panic!("a completed event must not run again"),
    }
    ledger.abandon("dedupe-topup-1");
    assert!(matches!(ledger.accept(&ev), BillingAdmission::Execute));
}

fn refill_artifacts(stop_reason: &str) -> TruthExecutionArtifacts {
    TruthExecutionArtifacts {
        execution: BillingExecutionSummary {
            converged: true,
            cycles: 4,
            stop_reason: stop_reason.to_string(),
            criteria: Vec::new(),
            experience_event_kinds: Vec::new(),
        },
        fact_count: 6,
        projection: Some(BillingProjectionSummary {
            persisted: true,
            organization_id: None,
            person_id: None,
            opportunity_id: None,
            subscription_id: Some("6fa459ea-ee8a-3ca4-894e-db77e160355e".to_string()),
            workflow_case_ids: Vec::new(),
            document_ids: Vec::new(),
            fact_ids: Vec::new(),
            entitlement_ids: vec!["ent-1".to_string()],
            ledger_entry_ids: vec!["led-1".to_string()],
            projected_event_kinds: Vec::new(),
        }),
        projected_facts: Vec::new(),
        runtime_scope_id: "scope".to_string(),
    }
}

fn run_event(ingress: &mut BillingIngress, request: BillingIngressRequest, runs: &mut usize) -> Result<BillingIngressResponse, ApiError> {
    match ingress.accept_webhook(Some("Bearer token"), request)? {
        IngressStep::Answered(answer) => Ok(answer),
        IngressStep::Execute(event) => {
            *runs += 1;
            assert_eq!(ingress_actor(&event).actor_id, "billing-ingress:converge-runtime");
            ingress.settle(event, Ok(refill_artifacts("criteria-met")))
        }
    }
}

#[test]
fn a_settled_top_up_answers_with_its_refill_run() {
    let mut ingress = BillingIngress::new(Some("token".to_string()));
    let mut request = top_up("evt_topup_1", Some(25_000));
    request.persist_projection = Some(true);
    let mut runs = 0;
    let answer = run_event(&mut ingress, request, &mut runs).unwrap();
    assert_eq!(runs, 1);
    assert_eq!(answer.truth_key, "refill-prepaid-ai-credits");
    assert!(!answer.duplicate);
    assert!(!answer.in_flight);
    assert_eq!(answer.execution.as_ref().unwrap().stop_reason, "criteria-met");
    assert_eq!(answer.projection.as_ref().unwrap().ledger_entry_ids.len(), 1);
}

#[test]
fn a_top_up_delivered_twice_runs_once() {
    let mut ingress = BillingIngress::new(Some("token".to_string()));
    let mut request = top_up("evt_topup_dup", Some(15_000));
    request.idempotency_key = Some("dedupe-topup-1".to_string());
    let mut runs = 0;
    let first = run_event(&mut ingress, request.clone(), &mut runs).unwrap();
    let second = run_event(&mut ingress, request, &mut runs).unwrap();
    assert_eq!(runs, 1);
    assert!(!first.duplicate);
    assert!(second.duplicate);
    assert_eq!(second.idempotency_key, "dedupe-topup-1");
    assert_eq!(second.execution.unwrap().stop_reason, "criteria-met");
}

#[test]
fn a_delivery_during_the_run_is_answered_in_flight() {
    let mut ingress = BillingIngress::new(Some("token".to_string()));
    let event = match ingress.accept_webhook(Some("Bearer token"), top_up("evt_slow", Some(5_000))).unwrap() {
        IngressStep::Execute(event) => event,
        IngressStep::Answered(_) => panic!("a new event must run"),
    };
    match ingress.accept_webhook(Some("Bearer token"), top_up("evt_slow", Some(5_000))).unwrap() {
        IngressStep::Answered(a) => {
            assert!(a.duplicate);
            assert!(a.in_flight);
            assert!(a.execution.is_none());
        }
        IngressStep::Execute(_) => panic!("an in-flight event must not run twice"),
    }
    let answer = ingress.settle(event, Ok(refill_artifacts("criteria-met"))).unwrap();
    assert!(!answer.in_flight);
}

#[test]
fn a_failed_run_is_answered_with_its_status_and_runs_again() {
    let mut ingress = BillingIngress::new(Some("token".to_string()));
    let event = match ingress.accept_webhook(Some("Bearer token"), top_up("evt_fail", Some(5_000))).unwrap() {
        IngressStep::Execute(event) => event,
        IngressStep::Answered(_) => panic!("a new event must run"),
    };
    let e = ingress
        .settle(event, Err(Status { code: StatusCode::FailedPrecondition, message: "refill requires an active subscription".to_string() }))
        .unwrap_err();
    assert_eq!(e.status, 412);
    assert_eq!(e.message, "refill requires an active subscription");
    assert!(matches!(
        ingress.accept_webhook(Some("Bearer token"), top_up("evt_fail", Some(5_000))).unwrap(),
        IngressStep::Execute(_)
    ));
}
