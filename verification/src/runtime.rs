//! The truth runtime: what a truth execution leaves behind, the statuses it
//! reports, and the human approval gates that decide blocked criteria.
use std::collections::HashMap;
use vstd::prelude::*;
use crate::billing::{BillingExecutionSummary, BillingProjectionSummary};
use crate::inputs::{empty_map, map_get, map_insert, text_keyed};
use crate::storage::{KernelError, StorageError};
use crate::text::{concat3, concat5, owned};

verus! {

/// The gRPC status codes that the runtime reports.
#[derive(Debug, Clone, Copy, PartialEq, Eq)]
pub enum StatusCode {
    /// The gRPC `OK` code.
    Success,
    Cancelled,
    Unknown,
    InvalidArgument,
    DeadlineExceeded,
    NotFound,
    AlreadyExists,
    PermissionDenied,
    ResourceExhausted,
    FailedPrecondition,
    Aborted,
    OutOfRange,
    Unimplemented,
    Internal,
    Unavailable,
    DataLoss,
    Unauthenticated,
}

/// A runtime status: its code and message.
#[derive(Debug, Clone)]
pub struct Status {
    pub code: StatusCode,
    pub message: String,
}

/// Who acts on the CRM.
#[derive(Debug, Clone, Copy, PartialEq, Eq)]
pub enum ActorKind {
    Human,
    Agent,
    System,
}

/// An actor of the CRM kernel.
#[derive(Debug, Clone)]
pub struct Actor {
    pub actor_id: String,
    pub display_name: String,
    pub kind: ActorKind,
}

/// A fact that a truth run projected into the CRM: its statement and its
/// confidence in basis points.
#[derive(Debug, Clone)]
pub struct ProjectedFact {
    pub statement: String,
    pub confidence_bps: u16,
}

/// What a truth execution leaves behind: the summary of its convergence
/// run, how many facts its context held, the projection it persisted with
/// the facts it projected (none without a projection), and the runtime
/// scope it ran in.
#[derive(Debug, Clone)]
pub struct TruthExecutionArtifacts {
    pub execution: BillingExecutionSummary,
    pub fact_count: usize,
    pub projection: Option<BillingProjectionSummary>,
    pub projected_facts: Vec<ProjectedFact>,
    pub runtime_scope_id: String,
}

/// Whether this server's own dispatcher runs a truth itself: it runs none;
/// truths are executed outside this library and their outcomes handed to
/// the functions that decide on them.
pub fn supports_truth_execution(truth_key: &str) -> (r: bool)
    ensures
        !r,
{
    false
}

/// The id under which an approval point of a runtime scope is requested:
/// the scope id, a colon, and the approval reference.
pub open spec fn gate_request_id(runtime_scope_id: Seq<char>, approval_ref: Seq<char>) -> Seq<
    char,
> {
    runtime_scope_id + ":"@ + approval_ref
}

pub fn runtime_gate_request_id(runtime_scope_id: &str, approval_ref: &str) -> (r: String)
    ensures
        r@ == gate_request_id(runtime_scope_id@, approval_ref@),
{
    concat3(runtime_scope_id, ":", approval_ref)
}

/// How an operator decided a gate.
#[derive(Debug, Clone, Copy, PartialEq, Eq)]
pub enum RuntimeGateDecision {
    Approved,
    Rejected,
}

/// The operator events recorded in a runtime scope, as far as gates go.
#[derive(Debug, Clone)]
pub enum UserDecisionRecord {
    ApprovalGranted { gate_request_id: String },
    ApprovalRejected { gate_request_id: String },
    ConstraintOverridden { constraint: String },
    Other,
}

/// The decisions that a sequence of records leaves: each record overrides
/// an earlier one for the same gate; an overridden constraint is rejected.
pub open spec fn decisions_after(records: Seq<UserDecisionRecord>) -> Map<Seq<char>, RuntimeGateDecision>
    decreases records.len(),
{
    if records.len() == 0 {
        Map::empty()
    } else {
        let before = decisions_after(records.drop_last());
        match records.last() {
            UserDecisionRecord::ApprovalGranted { gate_request_id } => before.insert(
                gate_request_id@,
                RuntimeGateDecision::Approved,
            ),
            UserDecisionRecord::ApprovalRejected { gate_request_id } => before.insert(
                gate_request_id@,
                RuntimeGateDecision::Rejected,
            ),
            UserDecisionRecord::ConstraintOverridden { constraint } => before.insert(
                constraint@,
                RuntimeGateDecision::Rejected,
            ),
            UserDecisionRecord::Other => before,
        }
    }
}

/// The decisions recorded for a runtime scope, by gate request id.
pub struct RuntimeGateDecisions {
    decisions: HashMap<String, RuntimeGateDecision>,
}

impl View for RuntimeGateDecisions {
    type V = Map<Seq<char>, RuntimeGateDecision>;

    closed spec fn view(&self) -> Map<Seq<char>, RuntimeGateDecision> {
        text_keyed(self.decisions@)
    }
}

/// The decision for an approval point: the scoped gate id first, then the
/// bare approval reference.
pub open spec fn decision_in(
    decisions: Map<Seq<char>, RuntimeGateDecision>,
    runtime_scope_id: Seq<char>,
    approval_ref: Seq<char>,
) -> Option<RuntimeGateDecision> {
    let scoped = gate_request_id(runtime_scope_id, approval_ref);
    if decisions.contains_key(scoped) {
        Some(decisions[scoped])
    } else if decisions.contains_key(approval_ref) {
        Some(decisions[approval_ref])
    } else {
        None
    }
}

impl RuntimeGateDecisions {
    /// Collects the decisions of a scope's operator records, in order.
    pub fn load(records: &Vec<UserDecisionRecord>) -> (r: Self)
        ensures
            r@ == decisions_after(records@),
    {
        let mut decisions: HashMap<String, RuntimeGateDecision> = empty_map();
        let mut i: usize = 0;
        while i < records.len()
            invariant
                i <= records@.len(),
                text_keyed(decisions@) == decisions_after(records@.subrange(0, i as int)),
            decreases records@.len() - i,
        {
            proof {
                assert(records@.subrange(0, i + 1).drop_last() =~= records@.subrange(0, i as int));
            }
            match &records[i] {
                UserDecisionRecord::ApprovalGranted { gate_request_id } => {
                    map_insert(&mut decisions, gate_request_id.clone(), RuntimeGateDecision::Approved);
                },
                UserDecisionRecord::ApprovalRejected { gate_request_id } => {
                    map_insert(&mut decisions, gate_request_id.clone(), RuntimeGateDecision::Rejected);
                },
                UserDecisionRecord::ConstraintOverridden { constraint } => {
                    map_insert(&mut decisions, constraint.clone(), RuntimeGateDecision::Rejected);
                },
                UserDecisionRecord::Other => {},
            }
            i = i + 1;
        }
        assert(records@.subrange(0, records@.len() as int) =~= records@);
        RuntimeGateDecisions { decisions }
    }

    /// The decision for an approval point of a runtime scope.
    pub fn decision_for(&self, runtime_scope_id: &str, approval_ref: &str) -> (r: Option<
        RuntimeGateDecision,
    >)
        ensures
            r == decision_in(self@, runtime_scope_id@, approval_ref@),
    {
        let scoped = runtime_gate_request_id(runtime_scope_id, approval_ref);
        match map_get(&self.decisions, scoped.as_str()) {
            Some(d) => Some(*d),
            None => match map_get(&self.decisions, approval_ref) {
                Some(d) => Some(*d),
                None => None,
            },
        }
    }
}

/// What a criterion evaluator concludes.
#[derive(Debug, Clone)]
pub enum CriterionResult {
    Met { evidence: Vec<String> },
    Unmet { reason: String },
    Indeterminate,
    Blocked { reason: String, approval_ref: Option<String> },
}

/// `approval rejected for {approval_ref}: {reason}`.
pub open spec fn rejection_message(approval_ref: Seq<char>, reason: Seq<char>) -> Seq<char> {
    "approval rejected for "@ + approval_ref + ": "@ + reason
}

/// A criterion's result once the operators' gate decisions are applied: a
/// criterion blocked on an approval point is met when the point was
/// approved (with the point as evidence), unmet when it was rejected, and
/// stays blocked while undecided. Any other result stands.
pub fn apply_gate_decision(
    decisions: &RuntimeGateDecisions,
    runtime_scope_id: &str,
    result: CriterionResult,
) -> (r: CriterionResult)
    ensures
        match result {
            CriterionResult::Blocked { reason, approval_ref: Some(approval) } => match decision_in(
                decisions@,
                runtime_scope_id@,
                approval@,
            ) {
                Some(RuntimeGateDecision::Approved) => r matches CriterionResult::Met { evidence }
                    && evidence@.len() == 1 && evidence@[0]@ == approval@,
                Some(RuntimeGateDecision::Rejected) => r matches CriterionResult::Unmet { reason: m }
                    && m@ == rejection_message(approval@, reason@),
                None => r == result,
            },
            _ => r == result,
        },
{
    match result {
        CriterionResult::Blocked { reason, approval_ref: Some(approval) } => {
            match decisions.decision_for(runtime_scope_id, approval.as_str()) {
                Some(RuntimeGateDecision::Approved) => {
                    let mut evidence = Vec::new();
                    evidence.push(approval);
                    CriterionResult::Met { evidence }
                },
                Some(RuntimeGateDecision::Rejected) => {
                    let message = concat5(
                        "approval rejected for ",
                        approval.as_str(),
                        ": ",
                        reason.as_str(),
                        "",
                    );
                    proof {
                        reveal_strlit("");
                        assert(message@ =~= rejection_message(approval@, reason@));
                    }
                    CriterionResult::Unmet { reason: message }
                },
                None => CriterionResult::Blocked { reason, approval_ref: Some(approval) },
            }
        },
        other => other,
    }
}

// ---------------------------------------------------------------- statuses

/// The status that a storage failure is reported as.
pub open spec fn storage_status(error: StorageError) -> (StatusCode, Seq<char>) {
    match error {
        StorageError::LockPoisoned => (StatusCode::Internal, "storage lock poisoned"@),
        StorageError::Kernel(KernelError::Validation(m)) => (StatusCode::InvalidArgument, m@),
        StorageError::Kernel(KernelError::NotFound { kind, id }) => (
            StatusCode::NotFound,
            kind@ + " not found: "@ + id@,
        ),
        StorageError::Kernel(KernelError::Invariant(m)) => (StatusCode::FailedPrecondition, m@),
        StorageError::Kernel(KernelError::Conflict(m)) => (StatusCode::AlreadyExists, m@),
        StorageError::ConnectionFailed { backend, message } => (
            StatusCode::Unavailable,
            backend@ + " connection failed: "@ + message@,
        ),
        StorageError::SerializationFailed { message } => (StatusCode::Internal, message@),
        StorageError::Timeout { operation } => (StatusCode::DeadlineExceeded, operation@),
        StorageError::RuntimeStore { message } => (StatusCode::Internal, message@),
    }
}

/// Reports a storage failure as a runtime status.
pub fn status_from_storage(error: StorageError) -> (r: Status)
    ensures
        (r.code, r.message@) == storage_status(error),
{
    match error {
        StorageError::LockPoisoned => Status {
            code: StatusCode::Internal,
            message: owned("storage lock poisoned"),
        },
        StorageError::Kernel(KernelError::Validation(m)) => Status {
            code: StatusCode::InvalidArgument,
            message: m,
        },
        StorageError::Kernel(KernelError::NotFound { kind, id }) => Status {
            code: StatusCode::NotFound,
            message: concat3(kind.as_str(), " not found: ", id.as_str()),
        },
        StorageError::Kernel(KernelError::Invariant(m)) => Status {
            code: StatusCode::FailedPrecondition,
            message: m,
        },
        StorageError::Kernel(KernelError::Conflict(m)) => Status {
            code: StatusCode::AlreadyExists,
            message: m,
        },
        StorageError::ConnectionFailed { backend, message } => Status {
            code: StatusCode::Unavailable,
            message: concat3(backend.as_str(), " connection failed: ", message.as_str()),
        },
        StorageError::SerializationFailed { message } => Status {
            code: StatusCode::Internal,
            message,
        },
        StorageError::Timeout { operation } => Status {
            code: StatusCode::DeadlineExceeded,
            message: operation,
        },
        StorageError::RuntimeStore { message } => Status { code: StatusCode::Internal, message },
    }
}

} // verus!
