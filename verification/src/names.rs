//! The names by which the API reads and writes CRM and runtime values.
use vstd::prelude::*;
use vstd::string::StrSliceExecFns;
use crate::billing::{ApiError, BAD_REQUEST};
use crate::text::{ascii_lower, ascii_lower_char, concat2, push_char, str_eq, trim, trim_str};

verus! {

/// A name folded for matching: trimmed, ASCII lower case, with `_` and
/// spaces written as `-`.
pub open spec fn normalized_name(value: Seq<char>) -> Seq<char> {
    ascii_lower(trim(value)).map_values(|c: char| if c == '_' || c == ' ' { '-' } else { c })
}

pub fn normalize_name(value: &str) -> (r: String)
    ensures
        r@ == normalized_name(value@),
{
    let t = trim_str(value);
    let n = t.unicode_len();
    let mut r = String::new();
    let mut i: usize = 0;
    while i < n
        invariant
            n == t@.len(),
            t@ == trim(value@),
            i <= n,
            r@ == normalized_name(value@).subrange(0, i as int),
        decreases n - i,
    {
        let c = ascii_lower_char_of(t.get_char(i));
        let d = if c == '_' || c == ' ' {
            '-'
        } else {
            c
        };
        push_char(&mut r, d);
        i = i + 1;
        assert(r@ =~= normalized_name(value@).subrange(0, i as int));
    }
    assert(normalized_name(value@).subrange(0, n as int) =~= normalized_name(value@));
    r
}

fn ascii_lower_char_of(c: char) -> (r: char)
    ensures
        r == ascii_lower_char(c),
{
    if 'A' <= c && c <= 'Z' {
        let u: u8 = ((c as u32) + 32) as u8;
        u as char
    } else {
        c
    }
}

/// The states of a workflow case.
#[derive(Debug, Clone, Copy, PartialEq, Eq)]
pub enum WorkflowState {
    Open,
    AwaitingApproval,
    WaitingExternal,
    Blocked,
    Done,
}

pub open spec fn workflow_state_name(s: WorkflowState) -> Seq<char> {
    match s {
        WorkflowState::Open => "open"@,
        WorkflowState::AwaitingApproval => "awaiting-approval"@,
        WorkflowState::WaitingExternal => "waiting-external"@,
        WorkflowState::Blocked => "blocked"@,
        WorkflowState::Done => "done"@,
    }
}

impl WorkflowState {
    /// The state's name as the API writes it.
    pub fn name(self) -> (r: &'static str)
        ensures
            r@ == workflow_state_name(self),
    {
        match self {
            WorkflowState::Open => "open",
            WorkflowState::AwaitingApproval => "awaiting-approval",
            WorkflowState::WaitingExternal => "waiting-external",
            WorkflowState::Blocked => "blocked",
            WorkflowState::Done => "done",
        }
    }
}

/// Reads a workflow state by its folded name.
pub fn parse_workflow_state(value: &str) -> (r: Result<WorkflowState, ApiError>)
    ensures
        match r {
            Ok(s) => workflow_state_name(s) == normalized_name(value@),
            Err(e) => e.status == BAD_REQUEST && e.message@ == "unsupported workflow state: "@
                + value@ && forall|s: WorkflowState| workflow_state_name(s) != normalized_name(
                value@,
            ),
        },
{
    let n = normalize_name(value);
    let n = n.as_str();
    if str_eq(n, "open") {
        Ok(WorkflowState::Open)
    } else if str_eq(n, "awaiting-approval") {
        Ok(WorkflowState::AwaitingApproval)
    } else if str_eq(n, "waiting-external") {
        Ok(WorkflowState::WaitingExternal)
    } else if str_eq(n, "blocked") {
        Ok(WorkflowState::Blocked)
    } else if str_eq(n, "done") {
        Ok(WorkflowState::Done)
    } else {
        Err(ApiError::new(BAD_REQUEST, concat2("unsupported workflow state: ", value)))
    }
}

/// The kinds of truth in the catalog.
#[derive(Debug, Clone, Copy, PartialEq, Eq)]
pub enum TruthKind {
    Job,
    Policy,
    ModuleLocal,
}

pub open spec fn truth_kind_name(k: TruthKind) -> Seq<char> {
    match k {
        TruthKind::Job => "job"@,
        TruthKind::Policy => "policy"@,
        TruthKind::ModuleLocal => "module-local"@,
    }
}

/// Reads a truth kind by its folded name.
pub fn parse_truth_kind(value: &str) -> (r: Result<TruthKind, ApiError>)
    ensures
        match r {
            Ok(k) => truth_kind_name(k) == normalized_name(value@),
            Err(e) => e.status == BAD_REQUEST && e.message@ == "unsupported truth kind: "@ + value@
                && forall|k: TruthKind| truth_kind_name(k) != normalized_name(value@),
        },
{
    let n = normalize_name(value);
    let n = n.as_str();
    if str_eq(n, "job") {
        Ok(TruthKind::Job)
    } else if str_eq(n, "policy") {
        Ok(TruthKind::Policy)
    } else if str_eq(n, "module-local") {
        Ok(TruthKind::ModuleLocal)
    } else {
        Err(ApiError::new(BAD_REQUEST, concat2("unsupported truth kind: ", value)))
    }
}

/// The kinds of CRM record.
#[derive(Debug, Clone, Copy, PartialEq, Eq)]
pub enum RecordKind {
    Organization,
    Person,
    Relationship,
    Lead,
    Opportunity,
    Conversation,
    Activity,
    Task,
    OfferQuote,
    OrderSubscription,
    Document,
    Fact,
    Intent,
    WorkflowCase,
    CommunicationEvent,
    PermissionGrant,
    AuditEntry,
    Note,
    CatalogItem,
}

/// The folded names that read as each record kind.
pub open spec fn record_kind_named(n: Seq<char>) -> Option<RecordKind> {
    if n == "organization"@ {
        Some(RecordKind::Organization)
    } else if n == "person"@ {
        Some(RecordKind::Person)
    } else if n == "relationship"@ {
        Some(RecordKind::Relationship)
    } else if n == "lead"@ {
        Some(RecordKind::Lead)
    } else if n == "opportunity"@ {
        Some(RecordKind::Opportunity)
    } else if n == "conversation"@ {
        Some(RecordKind::Conversation)
    } else if n == "activity"@ {
        Some(RecordKind::Activity)
    } else if n == "task"@ {
        Some(RecordKind::Task)
    } else if n == "offer-quote"@ {
        Some(RecordKind::OfferQuote)
    } else if n == "order-subscription"@ || n == "subscription"@ {
        Some(RecordKind::OrderSubscription)
    } else if n == "document"@ {
        Some(RecordKind::Document)
    } else if n == "fact"@ {
        Some(RecordKind::Fact)
    } else if n == "intent"@ {
        Some(RecordKind::Intent)
    } else if n == "workflow-case"@ {
        Some(RecordKind::WorkflowCase)
    } else if n == "communication-event"@ {
        Some(RecordKind::CommunicationEvent)
    } else if n == "permission-grant"@ {
        Some(RecordKind::PermissionGrant)
    } else if n == "audit-entry"@ {
        Some(RecordKind::AuditEntry)
    } else if n == "note"@ {
        Some(RecordKind::Note)
    } else if n == "catalog-item"@ {
        Some(RecordKind::CatalogItem)
    } else {
        None
    }
}

/// Reads a record kind by its folded name.
pub fn parse_record_kind(value: &str) -> (r: Result<RecordKind, ApiError>)
    ensures
        match record_kind_named(normalized_name(value@)) {
            Some(k) => r matches Ok(x) && x == k,
            None => r matches Err(e) && e.status == BAD_REQUEST && e.message@
                == "unsupported record kind: "@ + value@,
        },
{
    let n = normalize_name(value);
    let n = n.as_str();
    if str_eq(n, "organization") {
        Ok(RecordKind::Organization)
    } else if str_eq(n, "person") {
        Ok(RecordKind::Person)
    } else if str_eq(n, "relationship") {
        Ok(RecordKind::Relationship)
    } else if str_eq(n, "lead") {
        Ok(RecordKind::Lead)
    } else if str_eq(n, "opportunity") {
        Ok(RecordKind::Opportunity)
    } else if str_eq(n, "conversation") {
        Ok(RecordKind::Conversation)
    } else if str_eq(n, "activity") {
        Ok(RecordKind::Activity)
    } else if str_eq(n, "task") {
        Ok(RecordKind::Task)
    } else if str_eq(n, "offer-quote") {
        Ok(RecordKind::OfferQuote)
    } else if str_eq(n, "order-subscription") || str_eq(n, "subscription") {
        Ok(RecordKind::OrderSubscription)
    } else if str_eq(n, "document") {
        Ok(RecordKind::Document)
    } else if str_eq(n, "fact") {
        Ok(RecordKind::Fact)
    } else if str_eq(n, "intent") {
        Ok(RecordKind::Intent)
    } else if str_eq(n, "workflow-case") {
        Ok(RecordKind::WorkflowCase)
    } else if str_eq(n, "communication-event") {
        Ok(RecordKind::CommunicationEvent)
    } else if str_eq(n, "permission-grant") {
        Ok(RecordKind::PermissionGrant)
    } else if str_eq(n, "audit-entry") {
        Ok(RecordKind::AuditEntry)
    } else if str_eq(n, "note") {
        Ok(RecordKind::Note)
    } else if str_eq(n, "catalog-item") {
        Ok(RecordKind::CatalogItem)
    } else {
        Err(ApiError::new(BAD_REQUEST, concat2("unsupported record kind: ", value)))
    }
}

} // verus!
