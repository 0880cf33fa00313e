//! The live pipeline surface: the events a pipeline run publishes, the
//! approvals that blocked steps wait on, the decisions operators send, the
//! cursor a reconnecting stream resumes from, and the filter that keeps a
//! stream from delivering an event twice.
use vstd::prelude::*;
use crate::pipeline::{
    PipelineModel, PipelineResult, PipelineStatus, PipelineStatusModel, ShowcasePipelineInput, StepModel,
    StepStatus, StepStatusModel,
};
use crate::realtime::{RealtimeCursor, RealtimeEvent};
use crate::text::{concat2, concat3, int_decimal, nonblank, nonblank_text, opt_text, owned, str_eq, str_starts_with, starts_with_text, usize_text};

verus! {

// ---------------------------------------------------------------- events

/// What a pipeline run tells its watchers.
#[derive(Debug, Clone)]
pub enum PipelineEvent {
    PipelineStarted { run_id: String, prospect: String },
    StepStarted { step: usize, truth_key: String },
    /// A fact proposed during a step, with its confidence in basis points.
    FactProposed { step: usize, fact_id: String, context_key: String, confidence_bps: u16 },
    StepCompleted { step: usize, truth_key: String, cycles: u32, fact_count: usize },
    StepBlocked { step: usize, truth_key: String, reason: String, approval_ref: Option<String> },
    StepFailed { step: usize, truth_key: String, error: String },
    PipelineCompleted { run_id: String, status: String },
}

/// The content of a pipeline event.
pub enum PipelineEventModel {
    PipelineStarted { run_id: Seq<char>, prospect: Seq<char> },
    StepStarted { step: usize, truth_key: Seq<char> },
    FactProposed { step: usize, fact_id: Seq<char>, context_key: Seq<char>, confidence_bps: u16 },
    StepCompleted { step: usize, truth_key: Seq<char>, cycles: u32, fact_count: usize },
    StepBlocked { step: usize, truth_key: Seq<char>, reason: Seq<char>, approval_ref: Option<Seq<char>> },
    StepFailed { step: usize, truth_key: Seq<char>, error: Seq<char> },
    PipelineCompleted { run_id: Seq<char>, status: Seq<char> },
}

impl View for PipelineEvent {
    type V = PipelineEventModel;

    open spec fn view(&self) -> PipelineEventModel {
        match self {
            PipelineEvent::PipelineStarted { run_id, prospect } => PipelineEventModel::PipelineStarted {
                run_id: run_id@,
                prospect: prospect@,
            },
            PipelineEvent::StepStarted { step, truth_key } => PipelineEventModel::StepStarted {
                step: *step,
                truth_key: truth_key@,
            },
            PipelineEvent::FactProposed { step, fact_id, context_key, confidence_bps } =>
                PipelineEventModel::FactProposed {
                step: *step,
                fact_id: fact_id@,
                context_key: context_key@,
                confidence_bps: *confidence_bps,
            },
            PipelineEvent::StepCompleted { step, truth_key, cycles, fact_count } =>
                PipelineEventModel::StepCompleted {
                step: *step,
                truth_key: truth_key@,
                cycles: *cycles,
                fact_count: *fact_count,
            },
            PipelineEvent::StepBlocked { step, truth_key, reason, approval_ref } =>
                PipelineEventModel::StepBlocked {
                step: *step,
                truth_key: truth_key@,
                reason: reason@,
                approval_ref: opt_text(*approval_ref),
            },
            PipelineEvent::StepFailed { step, truth_key, error } => PipelineEventModel::StepFailed {
                step: *step,
                truth_key: truth_key@,
                error: error@,
            },
            PipelineEvent::PipelineCompleted { run_id, status } => PipelineEventModel::PipelineCompleted {
                run_id: run_id@,
                status: status@,
            },
        }
    }
}

/// The content of a sequence of events.
pub open spec fn events_model(events: Seq<PipelineEvent>) -> Seq<PipelineEventModel> {
    events.map_values(|e: PipelineEvent| e@)
}

/// The realtime event type that a pipeline event is published under.
pub fn pipeline_realtime_type(event: &PipelineEvent) -> (r: &'static str)
    ensures
        r@ == pipeline_type_of(event@),
{
    match event {
        PipelineEvent::PipelineStarted { .. } => "pipeline.started",
        PipelineEvent::StepStarted { .. } => "pipeline.step.started",
        PipelineEvent::FactProposed { .. } => "pipeline.fact.proposed",
        PipelineEvent::StepCompleted { .. } => "pipeline.step.completed",
        PipelineEvent::StepBlocked { .. } => "pipeline.step.blocked",
        PipelineEvent::StepFailed { .. } => "pipeline.step.failed",
        PipelineEvent::PipelineCompleted { .. } => "pipeline.completed",
    }
}

/// The realtime event type of each kind of pipeline event.
pub open spec fn pipeline_type_of(e: PipelineEventModel) -> Seq<char> {
    match e {
        PipelineEventModel::PipelineStarted { .. } => "pipeline.started"@,
        PipelineEventModel::StepStarted { .. } => "pipeline.step.started"@,
        PipelineEventModel::FactProposed { .. } => "pipeline.fact.proposed"@,
        PipelineEventModel::StepCompleted { .. } => "pipeline.step.completed"@,
        PipelineEventModel::StepBlocked { .. } => "pipeline.step.blocked"@,
        PipelineEventModel::StepFailed { .. } => "pipeline.step.failed"@,
        PipelineEventModel::PipelineCompleted { .. } => "pipeline.completed"@,
    }
}

/// Whether a realtime event belongs on the pipeline stream.
pub fn is_pipeline_event(event: &RealtimeEvent) -> (r: bool)
    ensures
        r == starts_with_text(event.event_type@, "pipeline."@),
{
    str_starts_with(event.event_type.as_str(), "pipeline.")
}

/// The word a finished run reports its status with.
pub open spec fn status_word(s: PipelineStatusModel) -> Seq<char> {
    match s {
        PipelineStatusModel::Completed => "completed"@,
        PipelineStatusModel::BlockedAtStep { .. } => "blocked"@,
        PipelineStatusModel::Failed { .. } => "failed"@,
    }
}

/// `approval-{run_id}-{step}`: the reference under which a blocked step
/// waits for an operator.
pub open spec fn approval_ref_of(run_id: Seq<char>, step: int) -> Seq<char> {
    "approval-"@ + run_id + "-"@ + int_decimal(step)
}

fn approval_ref_text(run_id: &str, step: usize) -> (r: String)
    ensures
        r@ == approval_ref_of(run_id@, step as int),
{
    let n = usize_text(step);
    let head = concat3("approval-", run_id, "-");
    concat2(head.as_str(), n.as_str())
}

/// The events that report step `i` of a finished run: a completed step, and
/// the start of the next one if there is one; a blocked step with its
/// approval reference; a failed step with its error; nothing for a skipped
/// step.
pub open spec fn step_report(run_id: Seq<char>, steps: Seq<StepModel>, i: int) -> Seq<PipelineEventModel> {
    let s = steps[i];
    match s.status {
        StepStatusModel::Completed => {
            let done = PipelineEventModel::StepCompleted {
                step: i as usize,
                truth_key: s.truth_key,
                cycles: match s.cycles {
                    Some(c) => c,
                    None => 0,
                },
                fact_count: match s.fact_count {
                    Some(c) => c,
                    None => 0,
                },
            };
            if i + 1 < steps.len() {
                seq![done, PipelineEventModel::StepStarted { step: (i + 1) as usize, truth_key: steps[i + 1].truth_key }]
            } else {
                seq![done]
            }
        },
        StepStatusModel::Blocked { reason } => seq![
            PipelineEventModel::StepBlocked {
                step: i as usize,
                truth_key: s.truth_key,
                reason,
                approval_ref: Some(approval_ref_of(run_id, i)),
            },
        ],
        StepStatusModel::Failed { error } => seq![
            PipelineEventModel::StepFailed { step: i as usize, truth_key: s.truth_key, error },
        ],
        StepStatusModel::Skipped => Seq::empty(),
    }
}

/// The reports of the first `n` steps, in order.
pub open spec fn steps_report(run_id: Seq<char>, steps: Seq<StepModel>, n: int) -> Seq<PipelineEventModel>
    decreases n,
{
    if n <= 0 {
        Seq::empty()
    } else {
        steps_report(run_id, steps, n - 1) + step_report(run_id, steps, n - 1)
    }
}

/// What a finished run publishes: the report of every step, then the run's
/// completion with its status word.
pub open spec fn run_report(run_id: Seq<char>, result: PipelineModel) -> Seq<PipelineEventModel> {
    steps_report(run_id, result.steps, result.steps.len() as int).push(
        PipelineEventModel::PipelineCompleted { run_id, status: status_word(result.status) },
    )
}

fn step_events(run_id: &str, result: &PipelineResult, i: usize, out: &mut Vec<PipelineEvent>)
    requires
        i < result.steps@.len(),
    ensures
        events_model(final(out)@) == events_model(old(out)@) + step_report(run_id@, result@.steps, i as int),
{
    let ghost before = out@;
    let step = &result.steps[i];
    match &step.status {
        StepStatus::Completed => {
            out.push(
                PipelineEvent::StepCompleted {
                    step: i,
                    truth_key: step.truth_key.clone(),
                    cycles: match step.cycles {
                        Some(c) => c,
                        None => 0,
                    },
                    fact_count: match step.fact_count {
                        Some(c) => c,
                        None => 0,
                    },
                },
            );
            if i < result.steps.len() - 1 {
                out.push(PipelineEvent::StepStarted { step: i + 1, truth_key: result.steps[i + 1].truth_key.clone() });
            }
        },
        StepStatus::Blocked { reason } => {
            out.push(
                PipelineEvent::StepBlocked {
                    step: i,
                    truth_key: step.truth_key.clone(),
                    reason: reason.clone(),
                    approval_ref: Some(approval_ref_text(run_id, i)),
                },
            );
        },
        StepStatus::Failed { error } => {
            out.push(PipelineEvent::StepFailed { step: i, truth_key: step.truth_key.clone(), error: error.clone() });
        },
        StepStatus::Skipped => {},
    }
    assert(events_model(out@) =~= events_model(before) + step_report(run_id@, result@.steps, i as int));
}

/// The events that a finished run publishes, in order.
pub fn pipeline_report(run_id: &str, result: &PipelineResult) -> (r: Vec<PipelineEvent>)
    ensures
        events_model(r@) == run_report(run_id@, result@),
{
    let mut out: Vec<PipelineEvent> = Vec::new();
    let n = result.steps.len();
    let mut i: usize = 0;
    while i < n
        invariant
            n == result.steps@.len(),
            i <= n,
            events_model(out@) == steps_report(run_id@, result@.steps, i as int),
        decreases n - i,
    {
        step_events(run_id, result, i, &mut out);
        i = i + 1;
    }
    let ghost before = out@;
    let status = match &result.status {
        PipelineStatus::Completed => "completed",
        PipelineStatus::BlockedAtStep { .. } => "blocked",
        PipelineStatus::Failed { .. } => "failed",
    };
    out.push(PipelineEvent::PipelineCompleted { run_id: owned(run_id), status: owned(status) });
    assert(events_model(out@) =~= run_report(run_id@, result@));
    out
}

// ---------------------------------------------------------------- approvals

/// A blocked step waiting for an operator.
#[derive(Debug, Clone)]
pub struct PendingApproval {
    pub approval_ref: String,
    pub truth_key: String,
    pub step: usize,
    pub reason: String,
    pub created_at: String,
}

impl PendingApproval {
    /// A copy with the same content.
    pub fn copy(&self) -> (r: Self)
        ensures
            r == *self,
    {
        PendingApproval {
            approval_ref: self.approval_ref.clone(),
            truth_key: self.truth_key.clone(),
            step: self.step,
            reason: self.reason.clone(),
            created_at: self.created_at.clone(),
        }
    }
}

/// The content of a pending approval.
pub struct PendingApprovalModel {
    pub approval_ref: Seq<char>,
    pub truth_key: Seq<char>,
    pub step: usize,
    pub reason: Seq<char>,
    pub created_at: Seq<char>,
}

impl View for PendingApproval {
    type V = PendingApprovalModel;

    open spec fn view(&self) -> PendingApprovalModel {
        PendingApprovalModel {
            approval_ref: self.approval_ref@,
            truth_key: self.truth_key@,
            step: self.step,
            reason: self.reason@,
            created_at: self.created_at@,
        }
    }
}

/// The content of a sequence of approvals.
pub open spec fn approvals_model(a: Seq<PendingApproval>) -> Seq<PendingApprovalModel> {
    a.map_values(|p: PendingApproval| p@)
}

/// The approvals that the first `n` steps of a finished run register: one
/// for each blocked step, under its approval reference.
pub open spec fn blocked_approvals(
    run_id: Seq<char>,
    steps: Seq<StepModel>,
    created_at: Seq<char>,
    n: int,
) -> Seq<PendingApprovalModel>
    decreases n,
{
    if n <= 0 {
        Seq::empty()
    } else {
        let before = blocked_approvals(run_id, steps, created_at, n - 1);
        match steps[n - 1].status {
            StepStatusModel::Blocked { reason } => before.push(
                PendingApprovalModel {
                    approval_ref: approval_ref_of(run_id, n - 1),
                    truth_key: steps[n - 1].truth_key,
                    step: (n - 1) as usize,
                    reason,
                    created_at,
                },
            ),
            _ => before,
        }
    }
}

/// The approvals that a finished run registers, stamped `created_at`.
pub fn approvals_for_run(run_id: &str, result: &PipelineResult, created_at: &str) -> (r: Vec<PendingApproval>)
    ensures
        approvals_model(r@) == blocked_approvals(run_id@, result@.steps, created_at@, result@.steps.len() as int),
{
    let mut out: Vec<PendingApproval> = Vec::new();
    let n = result.steps.len();
    let mut i: usize = 0;
    while i < n
        invariant
            n == result.steps@.len(),
            i <= n,
            approvals_model(out@) == blocked_approvals(run_id@, result@.steps, created_at@, i as int),
        decreases n - i,
    {
        let ghost before = out@;
        let step = &result.steps[i];
        match &step.status {
            StepStatus::Blocked { reason } => {
                out.push(
                    PendingApproval {
                        approval_ref: approval_ref_text(run_id, i),
                        truth_key: step.truth_key.clone(),
                        step: i,
                        reason: reason.clone(),
                        created_at: owned(created_at),
                    },
                );
            },
            _ => {},
        }
        assert(approvals_model(out@) =~= blocked_approvals(run_id@, result@.steps, created_at@, i + 1));
        i = i + 1;
    }
    out
}

/// The first pending approval with reference `r`, by position.
pub open spec fn position_of(a: Seq<PendingApprovalModel>, r: Seq<char>, i: int) -> Option<int>
    decreases a.len() - i,
{
    if i < 0 || i >= a.len() {
        None
    } else if a[i].approval_ref == r {
        Some(i)
    } else {
        position_of(a, r, i + 1)
    }
}

/// The approvals that blocked steps wait on, oldest first.
#[derive(Debug)]
pub struct PendingApprovals {
    items: Vec<PendingApproval>,
}

impl View for PendingApprovals {
    type V = Seq<PendingApprovalModel>;

    closed spec fn view(&self) -> Seq<PendingApprovalModel> {
        approvals_model(self.items@)
    }
}

impl PendingApprovals {
    /// None pending.
    pub fn new() -> (r: Self)
        ensures
            r@ == Seq::<PendingApprovalModel>::empty(),
    {
        let r = PendingApprovals { items: Vec::new() };
        assert(r@ =~= Seq::<PendingApprovalModel>::empty());
        r
    }

    /// Registers `approvals` after those already pending.
    pub fn register(&mut self, approvals: Vec<PendingApproval>)
        ensures
            final(self)@ == old(self)@ + approvals_model(approvals@),
    {
        let ghost before = self.items@;
        let mut more = approvals;
        self.items.append(&mut more);
        assert(approvals_model(self.items@) =~= approvals_model(before) + approvals_model(approvals@));
    }

    /// A copy of every pending approval, oldest first.
    pub fn list(&self) -> (r: Vec<PendingApproval>)
        ensures
            approvals_model(r@) == self@,
    {
        let mut r: Vec<PendingApproval> = Vec::new();
        let n = self.items.len();
        let mut i: usize = 0;
        while i < n
            invariant
                n == self.items@.len(),
                i <= n,
                r@ == self.items@.subrange(0, i as int),
            decreases n - i,
        {
            r.push(self.items[i].copy());
            i = i + 1;
            assert(r@ =~= self.items@.subrange(0, i as int));
        }
        assert(self.items@.subrange(0, n as int) =~= self.items@);
        r
    }

    /// Forgets every pending approval.
    pub fn clear(&mut self)
        ensures
            final(self)@ == Seq::<PendingApprovalModel>::empty(),
    {
        self.items.clear();
        assert(approvals_model(self.items@) =~= Seq::<PendingApprovalModel>::empty());
    }

    /// Removes and returns the first approval with reference
    /// `approval_ref`; none where no approval has it.
    pub fn take(&mut self, approval_ref: &str) -> (r: Option<PendingApproval>)
        ensures
            match position_of(old(self)@, approval_ref@, 0) {
                Some(p) => r matches Some(a) && a@ == old(self)@[p] && final(self)@ == old(self)@.remove(p),
                None => r is None && final(self)@ == old(self)@,
            },
    {
        let n = self.items.len();
        let mut i: usize = 0;
        while i < n
            invariant
                n == self.items@.len(),
                i <= n,
                *self == *old(self),
                position_of(approvals_model(self.items@), approval_ref@, 0) == position_of(
                    approvals_model(self.items@),
                    approval_ref@,
                    i as int,
                ),
            decreases n - i,
        {
            assert(approvals_model(self.items@)[i as int] == self.items@[i as int]@);
            if str_eq(self.items[i].approval_ref.as_str(), approval_ref) {
                let ghost before = self.items@;
                let a = self.items.remove(i);
                assert(approvals_model(self.items@) =~= approvals_model(before).remove(i as int));
                return Some(a);
            }
            i = i + 1;
        }
        None
    }
}

proof fn lemma_position_found(a: Seq<PendingApprovalModel>, r: Seq<char>, i: int)
    ensures
        position_of(a, r, i) matches Some(p) ==> i <= p < a.len() && a[p].approval_ref == r,
    decreases a.len() - i,
{
    if 0 <= i < a.len() && a[i].approval_ref != r {
        lemma_position_found(a, r, i + 1);
    }
}

proof fn lemma_position_absent(a: Seq<PendingApprovalModel>, r: Seq<char>, i: int)
    requires
        0 <= i,
        forall|k: int| i <= k < a.len() ==> (#[trigger] a[k]).approval_ref != r,
    ensures
        position_of(a, r, i) is None,
    decreases a.len() - i,
{
    if i < a.len() {
        lemma_position_absent(a, r, i + 1);
    }
}

/// Pending approvals whose references are all different.
pub open spec fn distinct_refs(a: Seq<PendingApprovalModel>) -> bool {
    forall|i: int, j: int|
        0 <= i < a.len() && 0 <= j < a.len() && i != j ==> (#[trigger] a[i]).approval_ref != (#[trigger] a[j]).approval_ref
}

/// Among approvals with distinct references, one that was taken is no
/// longer pending: deciding it a second time finds nothing.
pub proof fn law_decided_approval_is_gone(a: Seq<PendingApprovalModel>, r: Seq<char>)
    requires
        distinct_refs(a),
    ensures
        position_of(a, r, 0) matches Some(p) ==> position_of(a.remove(p), r, 0) is None,
{
    lemma_position_found(a, r, 0);
    if let Some(p) = position_of(a, r, 0) {
        let b = a.remove(p);
        assert forall|k: int| 0 <= k < b.len() implies (#[trigger] b[k]).approval_ref != r by {
            if k < p {
                assert(b[k] == a[k]);
            } else {
                assert(b[k] == a[k + 1]);
            }
        }
        lemma_position_absent(b, r, 0);
    }
}

/// An operator's answer to a blocked step.
#[derive(Debug, Clone)]
pub struct ApprovalDecision {
    pub actor: Option<String>,
    pub approver_name: Option<String>,
    pub reason: Option<String>,
    pub approval_note: Option<String>,
    pub rejection_note: Option<String>,
    pub policy_snapshot_hash: Option<String>,
    pub delegate_to_policy: Option<bool>,
}

/// The first of two optional texts that is given.
pub open spec fn first_given(a: Option<String>, b: Option<String>) -> Option<Seq<char>> {
    match a {
        Some(x) => Some(x@),
        None => opt_text(b),
    }
}

fn first_of<'a>(a: &'a Option<String>, b: &'a Option<String>) -> (r: Option<&'a str>)
    ensures
        match r {
            Some(t) => first_given(*a, *b) == Some(t@),
            None => first_given(*a, *b) is None,
        },
{
    match a {
        Some(x) => Some(x.as_str()),
        None => match b {
            Some(y) => Some(y.as_str()),
            None => None,
        },
    }
}

/// Who decided: the actor, else the approver's name, trimmed, when not
/// blank; `operator` otherwise.
pub fn decision_actor(decision: &ApprovalDecision) -> (r: String)
    ensures
        r@ == match nonblank(first_given(decision.actor, decision.approver_name)) {
            Some(t) => t,
            None => "operator"@,
        },
{
    match nonblank_text(first_of(&decision.actor, &decision.approver_name)) {
        Some(t) => t,
        None => owned("operator"),
    }
}

/// Why it was approved: the approval note, else the reason, trimmed, when
/// not blank.
pub fn approval_reason(decision: &ApprovalDecision) -> (r: Option<String>)
    ensures
        opt_text(r) == nonblank(first_given(decision.approval_note, decision.reason)),
{
    nonblank_text(first_of(&decision.approval_note, &decision.reason))
}

/// Why it was rejected: the rejection note, else the reason, trimmed, when
/// not blank; `rejected by operator` otherwise.
pub fn rejection_reason(decision: &ApprovalDecision) -> (r: String)
    ensures
        r@ == match nonblank(first_given(decision.rejection_note, decision.reason)) {
            Some(t) => t,
            None => "rejected by operator"@,
        },
{
    match nonblank_text(first_of(&decision.rejection_note, &decision.reason)) {
        Some(t) => t,
        None => owned("rejected by operator"),
    }
}

/// The policy snapshot the decision was taken under, as hex text: none
/// where the decision says it was not delegated to policy.
pub fn policy_snapshot_hex(decision: &ApprovalDecision) -> (r: Option<String>)
    ensures
        opt_text(r) == if decision.delegate_to_policy == Some(false) {
            None
        } else {
            opt_text(decision.policy_snapshot_hash)
        },
{
    if decision.delegate_to_policy == Some(false) {
        return None;
    }
    match &decision.policy_snapshot_hash {
        Some(h) => Some(h.clone()),
        None => None,
    }
}

/// An HTTP answer: status code and body text, with the event to publish
/// where there is one.
#[derive(Debug)]
pub struct ApprovalAnswer {
    pub status: u16,
    pub body: String,
    pub event: Option<PipelineEvent>,
}

/// Approves the pending step `approval_ref`: it leaves the pending list and
/// is reported completed (with no cycles and no facts); `404` where no such
/// approval is pending.
pub fn approve_pending(pending: &mut PendingApprovals, approval_ref: &str) -> (r: ApprovalAnswer)
    ensures
        match position_of(old(pending)@, approval_ref@, 0) {
            Some(p) => {
                &&& final(pending)@ == old(pending)@.remove(p)
                &&& r.status == 200
                &&& r.body@ == "approved: "@ + approval_ref@
                &&& r.event matches Some(e) && e@ == (PipelineEventModel::StepCompleted {
                    step: old(pending)@[p].step,
                    truth_key: old(pending)@[p].truth_key,
                    cycles: 0,
                    fact_count: 0,
                })
            },
            None => {
                &&& final(pending)@ == old(pending)@
                &&& r.status == 404
                &&& r.body@ == "approval not found: "@ + approval_ref@
                &&& r.event is None
            },
        },
{
    match pending.take(approval_ref) {
        Some(a) => ApprovalAnswer {
            status: 200,
            body: concat2("approved: ", approval_ref),
            event: Some(PipelineEvent::StepCompleted { step: a.step, truth_key: a.truth_key, cycles: 0, fact_count: 0 }),
        },
        None => ApprovalAnswer { status: 404, body: concat2("approval not found: ", approval_ref), event: None },
    }
}

/// Rejects the pending step `approval_ref`: it leaves the pending list and
/// is reported failed with the decision's reason as given, or `rejected by
/// operator`; `404` where no such approval is pending.
pub fn reject_pending(pending: &mut PendingApprovals, approval_ref: &str, decision: &ApprovalDecision) -> (r: ApprovalAnswer)
    ensures
        match position_of(old(pending)@, approval_ref@, 0) {
            Some(p) => {
                &&& final(pending)@ == old(pending)@.remove(p)
                &&& r.status == 200
                &&& r.body@ == "rejected: "@ + approval_ref@
                &&& r.event matches Some(e) && e@ == (PipelineEventModel::StepFailed {
                    step: old(pending)@[p].step,
                    truth_key: old(pending)@[p].truth_key,
                    error: match decision.reason {
                        Some(t) => t@,
                        None => "rejected by operator"@,
                    },
                })
            },
            None => {
                &&& final(pending)@ == old(pending)@
                &&& r.status == 404
                &&& r.body@ == "approval not found: "@ + approval_ref@
                &&& r.event is None
            },
        },
{
    match pending.take(approval_ref) {
        Some(a) => {
            let error = match &decision.reason {
                Some(t) => t.clone(),
                None => owned("rejected by operator"),
            };
            ApprovalAnswer {
                status: 200,
                body: concat2("rejected: ", approval_ref),
                event: Some(PipelineEvent::StepFailed { step: a.step, truth_key: a.truth_key, error }),
            }
        },
        None => ApprovalAnswer { status: 404, body: concat2("approval not found: ", approval_ref), event: None },
    }
}

// ---------------------------------------------------------------- streams

/// The cursor of a stream request: the `since_seq` query parameter, and the
/// `last_event_id` query parameter or else the `Last-Event-ID` header.
pub fn realtime_cursor(
    since_seq: Option<u64>,
    last_event_id: Option<String>,
    header_last_event_id: Option<String>,
) -> (r: RealtimeCursor)
    ensures
        r.since_sequence == since_seq,
        r.last_event_id == match last_event_id {
            Some(v) => Some(v),
            None => header_last_event_id,
        },
{
    RealtimeCursor {
        since_sequence: since_seq,
        last_event_id: match last_event_id {
            Some(v) => Some(v),
            None => header_last_event_id,
        },
    }
}

/// Keeps a stream from delivering an event twice: after the replay it only
/// lets through live events numbered after the last one it delivered.
#[derive(Debug, Clone, Copy)]
pub struct StreamGate {
    pub last_sequence: u64,
}

/// Whether a live event numbered `sequence` gets through `g`: only one
/// numbered after the last delivered.
pub open spec fn passes(g: StreamGate, sequence: u64) -> bool {
    sequence > g.last_sequence
}

/// The state of `g` once a live event numbered `sequence` has come to it.
pub open spec fn after_pass(g: StreamGate, sequence: u64) -> StreamGate {
    if passes(g, sequence) {
        StreamGate { last_sequence: sequence }
    } else {
        g
    }
}

impl StreamGate {
    /// A gate that starts from the replay's last sequence, or 0.
    pub fn after_replay(replay: &Vec<RealtimeEvent>) -> (r: Self)
        ensures
            r.last_sequence == if replay@.len() == 0 {
                0
            } else {
                replay@.last().sequence
            },
    {
        if replay.len() == 0 {
            StreamGate { last_sequence: 0 }
        } else {
            StreamGate { last_sequence: replay[replay.len() - 1].sequence }
        }
    }

    /// Whether a live event numbered `sequence` is delivered; a delivered
    /// one becomes the last.
    pub fn pass(&mut self, sequence: u64) -> (r: bool)
        ensures
            r == passes(*old(self), sequence),
            *final(self) == after_pass(*old(self), sequence),
    {
        if sequence <= self.last_sequence {
            false
        } else {
            self.last_sequence = sequence;
            true
        }
    }
}

/// A stream gate never delivers an event twice: an event that passed does
/// not pass again, and of two events that pass in turn the second is
/// numbered after the first.
pub proof fn law_gate_delivers_once_in_order(g: StreamGate, s1: u64, s2: u64)
    ensures
        passes(g, s1) ==> !passes(after_pass(g, s1), s1),
        passes(g, s1) && passes(after_pass(g, s1), s2) ==> s2 > s1,
{
}

// ---------------------------------------------------------------- runs

/// A request to run the showcase pipeline.
#[derive(Debug, Clone)]
pub struct RunPipelineRequest {
    pub prospect_id: Option<String>,
    pub prospect_name: Option<String>,
    pub inbound_summary: Option<String>,
}

/// The answer to a run request: the run's id, and that it started.
#[derive(Debug, Clone)]
pub struct RunPipelineResponse {
    pub run_id: String,
    pub status: String,
}

impl RunPipelineResponse {
    /// The answer for a run that started.
    pub fn started(run_id: String) -> (r: Self)
        ensures
            r.run_id == run_id,
            r.status@ == "started"@,
    {
        RunPipelineResponse { run_id, status: owned("started") }
    }
}

/// The prospect a run request names, `prospect-001` by default.
pub fn requested_prospect(request: &RunPipelineRequest) -> (r: String)
    ensures
        r@ == match request.prospect_id {
            Some(p) => p@,
            None => "prospect-001"@,
        },
{
    match &request.prospect_id {
        Some(p) => p.clone(),
        None => owned("prospect-001"),
    }
}

/// The seeded input with the request's name and inbound summary in place of
/// the seeded ones, where the request gives them.
pub fn apply_run_request(input: ShowcasePipelineInput, request: RunPipelineRequest) -> (r: ShowcasePipelineInput)
    ensures
        r.prospect_name == match request.prospect_name {
            Some(n) => n,
            None => input.prospect_name,
        },
        r.inbound_summary == match request.inbound_summary {
            Some(s) => s,
            None => input.inbound_summary,
        },
        r.visitor_id == input.visitor_id,
        r.usage_events_json == input.usage_events_json,
        r.meeting_count == input.meeting_count,
        r.window_start == input.window_start,
        r.window_end == input.window_end,
        r.calendar_slots_json == input.calendar_slots_json,
        r.industry == input.industry,
        r.website == input.website,
        r.contact_name == input.contact_name,
        r.contact_title == input.contact_title,
        r.contact_email == input.contact_email,
{
    let mut input = input;
    match request.prospect_name {
        Some(n) => {
            input.prospect_name = n;
        },
        None => {},
    }
    match request.inbound_summary {
        Some(s) => {
            input.inbound_summary = s;
        },
        None => {},
    }
    input
}

} // verus!
