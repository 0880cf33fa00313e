use std::collections::HashMap;

use application_server::names::{
    normalize_name, parse_record_kind, parse_truth_kind, parse_workflow_state, RecordKind,
    TruthKind, WorkflowState,
};
use application_server::routes::{
    api_error_from_operator, health_payload, parse_uuid_field, requested_truth_key,
    summary_timeline_limit, timeline_anchor, timeline_limit, OperatorAppError,
};
use application_server::runtime::{
    apply_gate_decision, runtime_gate_request_id, supports_truth_execution, CriterionResult,
    RuntimeGateDecision, RuntimeGateDecisions,
    UserDecisionRecord,
};
use application_server::storage::{AppConfig, RecordStoreConfig};

const ORG_TEXT: &str = "6fa459ea-ee8a-3ca4-894e-db77e160355e";
const ORG: u128 = 0x6fa459ea_ee8a_3ca4_894e_db77e160355e;

#[test]
fn names_fold_case_and_separators() {
    assert_eq!(normalize_name("  Awaiting_Approval "), "awaiting-approval");
    assert_eq!(parse_workflow_state("Waiting External").unwrap(), WorkflowState::WaitingExternal);
    let e = parse_workflow_state("paused").unwrap_err();
    assert_eq!(e.status, 400);
    assert_eq!(e.message, "unsupported workflow state: paused");
    assert_eq!(parse_truth_kind("JOB").unwrap(), TruthKind::Job);
    assert_eq!(parse_truth_kind("module_local").unwrap(), TruthKind::ModuleLocal);
    assert_eq!(parse_record_kind("Subscription").unwrap(), RecordKind::OrderSubscription);
    assert_eq!(parse_record_kind("catalog item").unwrap(), RecordKind::CatalogItem);
    assert_eq!(parse_record_kind("widget").unwrap_err().message, "unsupported record kind: widget");
}

#[test]
fn routes_read_their_parameters() {
    assert_eq!(health_payload().status, "ok");
    assert_eq!(parse_uuid_field(&format!(" {ORG_TEXT} "), "organization_id").unwrap(), ORG);
    let e = parse_uuid_field("nope", "organization_id").unwrap_err();
    assert_eq!((e.status, e.message.as_str()), (400, "organization_id must be a valid UUID"));
    assert_eq!(timeline_anchor(Some(ORG_TEXT), None, None).unwrap(), (RecordKind::Organization, ORG));
    assert_eq!(timeline_anchor(None, Some("lead"), Some(ORG_TEXT)).unwrap(), (RecordKind::Lead, ORG));
    assert_eq!(timeline_anchor(None, None, None).unwrap_err().message, "anchor_kind is required");
    assert_eq!(timeline_anchor(None, Some("lead"), None).unwrap_err().message, "anchor_id is required");
    assert_eq!(timeline_limit(None), 50);
    assert_eq!(timeline_limit(Some(10)), 10);
    assert_eq!(summary_timeline_limit(None), 25);
    assert_eq!(requested_truth_key(" qualify-inbound-lead ", true).unwrap(), "qualify-inbound-lead");
    let e = requested_truth_key("missing", false).unwrap_err();
    assert_eq!((e.status, e.message.as_str()), (404, "truth not found: missing"));
    assert_eq!(requested_truth_key("  ", true).unwrap_err().status, 400);
    let e = api_error_from_operator(OperatorAppError::MissingInput("organization_name".to_string()));
    assert_eq!((e.status, e.message.as_str()), (400, "missing required input: organization_name"));
    let e = api_error_from_operator(OperatorAppError::TruthNotFound("x".to_string()));
    assert_eq!(e.status, 404);
}

#[test]
fn the_server_dispatches_no_truth_itself() {
    assert!(!supports_truth_execution("qualify-inbound-lead"));
}

#[test]
fn gate_decisions_resolve_blocked_criteria() {
    assert_eq!(runtime_gate_request_id("scope-1", "gate-a"), "scope-1:gate-a");
    let records = vec![
        UserDecisionRecord::ApprovalRejected { gate_request_id: "scope-1:gate-a".to_string() },
        UserDecisionRecord::ApprovalGranted { gate_request_id: "scope-1:gate-a".to_string() },
        UserDecisionRecord::ApprovalRejected { gate_request_id: "gate-b".to_string() },
        UserDecisionRecord::Other,
    ];
    let decisions = RuntimeGateDecisions::load(&records);
    assert_eq!(decisions.decision_for("scope-1", "gate-a"), Some(RuntimeGateDecision::Approved));
    assert_eq!(decisions.decision_for("scope-1", "gate-b"), Some(RuntimeGateDecision::Rejected));
    assert_eq!(decisions.decision_for("scope-1", "gate-c"), None);

    let blocked = |gate: &str| CriterionResult::Blocked {
        reason: "needs approval".to_string(),
        approval_ref: Some(gate.to_string()),
    };
    match apply_gate_decision(&decisions, "scope-1", blocked("gate-a")) {
        CriterionResult::Met { evidence } => assert_eq!(evidence, vec!["gate-a".to_string()]),
        other => panic!("unexpected {:?}", other),
    }
    match apply_gate_decision(&decisions, "scope-1", blocked("gate-b")) {
        CriterionResult::Unmet { reason } => {
            assert_eq!(reason, "approval rejected for gate-b: needs approval")
        }
        other => panic!("unexpected {:?}", other),
    }
    assert!(matches!(
        apply_gate_decision(&decisions, "scope-1", blocked("gate-c")),
        CriterionResult::Blocked { .. }
    ));
}

#[test]
fn configuration_reads_the_environment() {
    let config = AppConfig::default_config();
    assert!(matches!(config.record_store, RecordStoreConfig::Memory));
    assert_eq!(config.usage_ingestion.len(), 1);
    let mut env = HashMap::new();
    env.insert("CRM_RECORD_STORE".to_string(), "SurReal".to_string());
    env.insert("CRM_SURREAL_NAMESPACE".to_string(), "tenant".to_string());
    let config = AppConfig::from_env_map(&env);
    match &config.record_store {
        RecordStoreConfig::Surreal(c) => {
            assert_eq!(c.endpoint, "mem://");
            assert_eq!(c.namespace, "tenant");
            assert_eq!(c.database, "local");
        }
        other => panic!("unexpected {:?}", other),
    }
}
