use application_server::billing::{BillingExecutionSummary, BillingProjectionSummary};
use application_server::truths::score_inbound_fit::fit_score_statement;
use application_server::pipeline::{
    advance_pipeline, build_qualify_inputs, build_schedule_inputs, build_score_inputs,
    events_json_from_seed, extract_fit_score, next_step_inputs, prospect_seed, run_showcase_pipeline,
    TruthOutcome,
    showcase_input_from_seed, step_result_from_artifacts, PipelineResult, PipelineStatus,
    PipelineStepResult, SeedEvent, ShowcasePipelineInput, StepStatus,
};
use application_server::runtime::{
    ProjectedFact, Status, StatusCode, TruthExecutionArtifacts,
};
use application_server::sse::{
    apply_run_request, approval_reason, approvals_for_run, approve_pending, decision_actor,
    pipeline_realtime_type, pipeline_report, policy_snapshot_hex, reject_pending,
    rejection_reason, requested_prospect, ApprovalDecision, PendingApprovals, PipelineEvent,
    RunPipelineRequest, RunPipelineResponse,
};

fn input() -> ShowcasePipelineInput {
    ShowcasePipelineInput {
        prospect_name: "Acme \"Corp\"".to_string(),
        visitor_id: "prospect-001".to_string(),
        usage_events_json: "[]".to_string(),
        inbound_summary: "demo request".to_string(),
        meeting_count: 2,
        window_start: "2026-04-21".to_string(),
        window_end: "2026-04-25".to_string(),
        calendar_slots_json: None,
        industry: Some("saas".to_string()),
        website: None,
        contact_name: Some("Alex".to_string()),
        contact_title: None,
        contact_email: None,
    }
}

fn artifacts(stop_reason: &str, facts: Vec<ProjectedFact>) -> TruthExecutionArtifacts {
    TruthExecutionArtifacts {
        execution: BillingExecutionSummary {
            converged: true,
            cycles: 3,
            stop_reason: stop_reason.to_string(),
            criteria: Vec::new(),
            experience_event_kinds: Vec::new(),
        },
        fact_count: 7,
        projection: Some(BillingProjectionSummary {
            persisted: true,
            organization_id: Some("org-1".to_string()),
            person_id: None,
            opportunity_id: None,
            subscription_id: None,
            workflow_case_ids: Vec::new(),
            document_ids: Vec::new(),
            fact_ids: Vec::new(),
            entitlement_ids: Vec::new(),
            ledger_entry_ids: Vec::new(),
            projected_event_kinds: Vec::new(),
        }),
        projected_facts: facts,
        runtime_scope_id: "scope".to_string(),
    }
}

fn score_outcome() -> TruthOutcome {
    Ok(artifacts(
        "criteria-met",
        vec![fact(&fit_score_statement(8_200, "high-fit", "pricing visits"), 9_000)],
    ))
}

#[test]
fn showcase_pipeline_runs_its_three_steps_over_their_outcomes() {
    let i = input();
    let mut outcomes: Vec<TruthOutcome> = Vec::new();
    let mut keys = Vec::new();
    while let Some((key, inputs)) = next_step_inputs(&i, &outcomes) {
        keys.push(key);
        if key == "qualify-inbound-lead" {
            assert_eq!(inputs.get("fit_score").map(String::as_str), Some("82"));
            assert_eq!(inputs.get("organization_id").map(String::as_str), Some("org-1"));
        }
        if key == "schedule-strategic-meetings" {
            let seed = inputs.get("prospects_json").unwrap();
            assert!(seed.contains("\"fit_score_bps\":8200"));
        }
        outcomes.push(if outcomes.is_empty() { score_outcome() } else { Ok(artifacts("criteria-met", vec![])) });
    }
    assert_eq!(keys, vec!["score-inbound-fit", "qualify-inbound-lead", "schedule-strategic-meetings"]);
    let result = run_showcase_pipeline(i, &outcomes);
    assert_eq!(result.steps.len(), 3);
    assert!(matches!(result.status, PipelineStatus::Completed));
    assert!(result.steps.iter().all(|s| matches!(s.status, StepStatus::Completed)));
    assert_eq!(result.steps[2].truth_key, "schedule-strategic-meetings");
}

#[test]
fn showcase_pipeline_stops_at_the_first_step_that_stops() {
    let blocked = vec![score_outcome(), Ok(artifacts("Blocked { approval }", vec![]))];
    assert!(next_step_inputs(&input(), &blocked).is_none());
    let result = run_showcase_pipeline(input(), &blocked);
    assert_eq!(result.steps.len(), 2);
    match &result.status {
        PipelineStatus::BlockedAtStep { step, reason } => {
            assert_eq!(*step, 1);
            assert_eq!(reason, "qualify-inbound-lead blocked for review");
        }
        other => panic!("unexpected status {:?}", other),
    }
    let failed: Vec<TruthOutcome> =
        vec![Err(Status { code: StatusCode::Unavailable, message: "engine unavailable".to_string() })];
    let result = run_showcase_pipeline(input(), &failed);
    assert_eq!(result.steps.len(), 1);
    assert_eq!(result.prospect_name, "Acme \"Corp\"");
    match &result.status {
        PipelineStatus::Failed { step, error } => {
            assert_eq!(*step, 0);
            assert_eq!(error, "engine unavailable");
        }
        other => panic!("unexpected status {:?}", other),
    }
}

#[test]
fn step_inputs_carry_what_each_truth_reads() {
    let i = input();
    let score = build_score_inputs(&i);
    assert_eq!(score.get("organization_name").map(String::as_str), Some("Acme \"Corp\""));
    assert_eq!(score.get("visitor_id").map(String::as_str), Some("prospect-001"));
    assert_eq!(score.get("industry").map(String::as_str), Some("saas"));
    assert!(score.get("website").is_none());
    assert_eq!(score.len(), 4);

    let qualify = build_qualify_inputs(&i, Some("org-1"), Some(7_550));
    assert_eq!(qualify.get("fit_score").map(String::as_str), Some("75"));
    assert_eq!(qualify.get("organization_id").map(String::as_str), Some("org-1"));
    assert_eq!(qualify.get("contact_name").map(String::as_str), Some("Alex"));
    assert_eq!(qualify.len(), 6);

    let schedule = build_schedule_inputs(&i, None, None);
    assert_eq!(
        schedule.get("intent_text").map(String::as_str),
        Some("Book 2 meetings with qualified prospects")
    );
    assert_eq!(schedule.get("requested_count").map(String::as_str), Some("2"));
    assert!(schedule.get("calendar_slots_json").is_none());
}

#[test]
fn prospect_seed_is_the_json_serde_writes() {
    let i = input();
    let seed = prospect_seed(&i, Some("org-1"), Some(8_200));
    let expected = "[{\"contact_email\":null,\"contact_name\":\"Alex\",\"estimated_value\":null,\"fit_score_bps\":8200,\"last_contact_days_ago\":0,\"name\":\"Acme \\\"Corp\\\"\",\"organization_id\":\"org-1\",\"pipeline_stage\":\"qualified\",\"segment\":\"saas\",\"tags\":[\"pipeline-showcase\"],\"territory\":null}]";
    assert_eq!(seed, expected);
    let parsed: serde_json::Value = serde_json::from_str(&seed).unwrap();
    assert_eq!(parsed[0]["name"], "Acme \"Corp\"");
    assert_eq!(parsed[0]["fit_score_bps"], 8200);
    let none = prospect_seed(&i, None, None);
    let parsed: serde_json::Value = serde_json::from_str(&none).unwrap();
    assert!(parsed[0]["organization_id"].is_null());
    assert!(parsed[0]["fit_score_bps"].is_null());
}

fn fact(statement: &str, confidence_bps: u16) -> ProjectedFact {
    ProjectedFact { statement: statement.to_string(), confidence_bps }
}

#[test]
fn fit_score_is_read_from_the_first_fit_score_fact() {
    let a = artifacts(
        "criteria-met",
        vec![
            fact("Visitor engaged with pricing", 9_000),
            fact("Inbound fit score 7420 bps for Acme", 6_000),
            fact("fit score 1000 bps", 5_000),
        ],
    );
    assert_eq!(extract_fit_score(&a), Some(7_420));
    let b = artifacts("criteria-met", vec![fact("fit score unknown", 6_100)]);
    assert_eq!(extract_fit_score(&b), Some(6_100));
    let c = artifacts("criteria-met", vec![fact("no score here", 6_100)]);
    assert_eq!(extract_fit_score(&c), None);
}

#[test]
fn a_stop_reason_that_waits_for_a_person_blocks_the_step() {
    let a = artifacts("Blocked { reason: approval }", vec![]);
    let step = step_result_from_artifacts("qualify-inbound-lead", &a);
    assert!(matches!(&step.status, StepStatus::Blocked { reason } if reason == "Blocked { reason: approval }"));
    assert_eq!(step.cycles, Some(3));
    assert_eq!(step.fact_count, Some(7));
    let h = artifacts("HumanInterventionRequired", vec![]);
    assert!(matches!(step_result_from_artifacts("x", &h).status, StepStatus::Blocked { .. }));
    let done = artifacts("criteria-met", vec![]);
    let step = step_result_from_artifacts("x", &done);
    assert!(matches!(step.status, StepStatus::Completed));
    assert_eq!(step.stop_reason.as_deref(), Some("criteria-met"));
}

#[test]
fn advance_records_the_step_and_stops_where_it_must() {
    let mut steps: Vec<PipelineStepResult> = Vec::new();
    let ok: Result<TruthExecutionArtifacts, Status> = Ok(artifacts("criteria-met", vec![]));
    assert!(advance_pipeline(&mut steps, 0, "score-inbound-fit", &ok, "blocked").is_none());
    let blocked: Result<TruthExecutionArtifacts, Status> = Ok(artifacts("Blocked", vec![]));
    match advance_pipeline(&mut steps, 1, "qualify-inbound-lead", &blocked, "qualify blocked") {
        Some(PipelineStatus::BlockedAtStep { step, reason }) => {
            assert_eq!(step, 1);
            assert_eq!(reason, "qualify blocked");
        }
        other => panic!("unexpected {:?}", other),
    }
    let err: Result<TruthExecutionArtifacts, Status> =
        Err(Status { code: StatusCode::Internal, message: "boom".to_string() });
    match advance_pipeline(&mut steps, 2, "schedule-strategic-meetings", &err, "unused") {
        Some(PipelineStatus::Failed { step, error }) => {
            assert_eq!(step, 2);
            assert_eq!(error, "boom");
        }
        other => panic!("unexpected {:?}", other),
    }
    assert_eq!(steps.len(), 3);
    assert!(matches!(&steps[2].status, StepStatus::Failed { error } if error == "boom"));
    assert!(steps[2].cycles.is_none());
}

fn blocked_result() -> PipelineResult {
    PipelineResult {
        steps: vec![
            PipelineStepResult {
                truth_key: "score-inbound-fit".to_string(),
                status: StepStatus::Completed,
                cycles: Some(2),
                stop_reason: Some("criteria-met".to_string()),
                fact_count: Some(4),
            },
            PipelineStepResult {
                truth_key: "qualify-inbound-lead".to_string(),
                status: StepStatus::Blocked { reason: "needs review".to_string() },
                cycles: Some(1),
                stop_reason: Some("Blocked".to_string()),
                fact_count: Some(5),
            },
        ],
        status: PipelineStatus::BlockedAtStep { step: 1, reason: "needs review".to_string() },
        prospect_name: "Acme".to_string(),
    }
}

#[test]
fn report_publishes_each_step_and_the_outcome() {
    let events = pipeline_report("run-1", &blocked_result());
    assert_eq!(events.len(), 4);
    assert!(matches!(&events[0], PipelineEvent::StepCompleted { step: 0, cycles: 2, fact_count: 4, .. }));
    assert!(matches!(&events[1], PipelineEvent::StepStarted { step: 1, truth_key } if truth_key == "qualify-inbound-lead"));
    match &events[2] {
        PipelineEvent::StepBlocked { step, reason, approval_ref, .. } => {
            assert_eq!(*step, 1);
            assert_eq!(reason, "needs review");
            assert_eq!(approval_ref.as_deref(), Some("approval-run-1-1"));
        }
        other => panic!("unexpected {:?}", other),
    }
    assert!(matches!(&events[3], PipelineEvent::PipelineCompleted { run_id, status } if run_id == "run-1" && status == "blocked"));
    assert_eq!(pipeline_realtime_type(&events[3]), "pipeline.completed");
}

#[test]
fn approvals_are_taken_once() {
    let approvals = approvals_for_run("run-1", &blocked_result(), "2026-04-21T00:00:00Z");
    assert_eq!(approvals.len(), 1);
    assert_eq!(approvals[0].approval_ref, "approval-run-1-1");
    assert_eq!(approvals[0].truth_key, "qualify-inbound-lead");
    let mut pending = PendingApprovals::new();
    pending.register(approvals);
    assert_eq!(pending.list().len(), 1);
    let answer = approve_pending(&mut pending, "approval-run-1-1");
    assert_eq!(answer.status, 200);
    assert_eq!(answer.body, "approved: approval-run-1-1");
    assert!(matches!(&answer.event, Some(PipelineEvent::StepCompleted { step: 1, cycles: 0, fact_count: 0, .. })));
    let again = approve_pending(&mut pending, "approval-run-1-1");
    assert_eq!(again.status, 404);
    assert_eq!(again.body, "approval not found: approval-run-1-1");
    assert!(again.event.is_none());
}

fn decision() -> ApprovalDecision {
    ApprovalDecision {
        actor: None,
        approver_name: Some("  Dana ".to_string()),
        reason: Some("too risky".to_string()),
        approval_note: None,
        rejection_note: None,
        policy_snapshot_hash: Some("abc123".to_string()),
        delegate_to_policy: None,
    }
}

#[test]
fn rejection_fails_the_blocked_step_with_the_reason() {
    let mut pending = PendingApprovals::new();
    pending.register(approvals_for_run("run-2", &blocked_result(), "now"));
    let answer = reject_pending(&mut pending, "approval-run-2-1", &decision());
    assert_eq!(answer.status, 200);
    assert_eq!(answer.body, "rejected: approval-run-2-1");
    assert!(matches!(&answer.event, Some(PipelineEvent::StepFailed { step: 1, error, .. }) if error == "too risky"));
    assert!(pending.list().is_empty());
}

#[test]
fn decision_fields_fall_back_in_order() {
    let d = decision();
    assert_eq!(decision_actor(&d), "Dana");
    assert_eq!(rejection_reason(&d), "too risky");
    assert_eq!(approval_reason(&d).as_deref(), Some("too risky"));
    assert_eq!(policy_snapshot_hex(&d).as_deref(), Some("abc123"));
    let mut blank = d.clone();
    blank.approver_name = Some("   ".to_string());
    blank.reason = None;
    blank.delegate_to_policy = Some(false);
    assert_eq!(decision_actor(&blank), "operator");
    assert_eq!(rejection_reason(&blank), "rejected by operator");
    assert!(approval_reason(&blank).is_none());
    assert!(policy_snapshot_hex(&blank).is_none());
}

#[test]
fn run_requests_override_the_seeded_input() {
    let request = RunPipelineRequest {
        prospect_id: None,
        prospect_name: Some("Globex".to_string()),
        inbound_summary: None,
    };
    assert_eq!(requested_prospect(&request), "prospect-001");
    let updated = apply_run_request(input(), request);
    assert_eq!(updated.prospect_name, "Globex");
    assert_eq!(updated.inbound_summary, "demo request");
    let response = RunPipelineResponse::started("run-9".to_string());
    assert_eq!(response.status, "started");
}

#[test]
fn seeded_prospects_become_pipeline_inputs() {
    let events = vec![
        SeedEvent {
            visitor_id: "p-1".to_string(),
            timestamp: 1_710_000_000,
            event_type: "page_view".to_string(),
            page: "/pricing".to_string(),
        },
        SeedEvent {
            visitor_id: "p-1".to_string(),
            timestamp: -5,
            event_type: "click".to_string(),
            page: "/a\"b".to_string(),
        },
    ];
    let json = events_json_from_seed(&events);
    assert_eq!(
        json,
        "[{\"event_type\":\"page_view\",\"page\":\"/pricing\",\"timestamp\":1710000000,\"visitor_id\":\"p-1\"},{\"event_type\":\"click\",\"page\":\"/a\\\"b\",\"timestamp\":-5,\"visitor_id\":\"p-1\"}]"
    );
    assert_eq!(events_json_from_seed(&Vec::new()), "[]");
    assert!(showcase_input_from_seed("p-1", 0, None, None, json.clone()).is_none());
    let i = showcase_input_from_seed("p-1", 2, Some("Acme".to_string()), None, json).unwrap();
    assert_eq!(i.prospect_name, "Acme");
    assert_eq!(i.inbound_summary, "Inbound inquiry from p-1 via website demo request");
    assert_eq!(i.meeting_count, 1);
    assert_eq!(i.window_start, "2026-04-21");
}

#[test]
fn the_recorded_fit_score_is_read_back() {
    let statement = fit_score_statement(7_420, "medium-fit", "pricing page visits; 3 bps noted");
    let a = artifacts("criteria-met", vec![fact(&statement, 1_234)]);
    assert_eq!(extract_fit_score(&a), Some(7_420));
    let zero = fit_score_statement(0, "low-fit", "none");
    assert_eq!(extract_fit_score(&artifacts("criteria-met", vec![fact(&zero, 99)])), Some(0));
}
