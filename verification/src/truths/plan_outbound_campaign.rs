//! plan-outbound-campaign: assigns a campaign's prospects to sales reps
//! within their capacity and checks the outreach spend against the budget.
//! The assignment itself is an optimisation over scores in floating point,
//! done outside this library; here are the inputs, the capacity and budget
//! checks, and the records the plan touches.
use std::collections::HashMap;
use vstd::prelude::*;
use crate::inputs::{input_model, present};
use crate::runtime::{Status, StatusCode};
use crate::text::{concat2, i64_error_text, opt_text, owned, parse_i64, parse_i64_reporting};
use crate::truths::common::{invalid_argument, missing_input_message, optional_i64, present_i64, required_input};
use crate::truths::schedule_strategic_meetings::{slug, slug_of};

verus! {

/// The cost of one outreach, in minor units, where the run names none.
pub const DEFAULT_OUTREACH_COST_MINOR: i64 = 2_500;

/// The priority of a prospect that names none.
pub fn default_priority() -> (r: i32)
    ensures
        r == 5,
{
    5
}

/// What the truth is run with.
#[derive(Debug, Clone)]
pub struct PlanOutboundCampaignInput {
    pub campaign_name: String,
    pub prospects_json: String,
    pub reps_json: String,
    pub campaign_budget_minor: i64,
    pub outreach_cost_minor: Option<i64>,
}

/// The message of the first input that is missing or unreadable, in the
/// order campaign name, prospects, reps, budget; none where all read.
pub open spec fn campaign_input_error(m: Map<Seq<char>, Seq<char>>) -> Option<Seq<char>> {
    if present(m, "campaign_name"@) is None {
        Some(missing_input_message("campaign_name"@))
    } else if present(m, "prospects_json"@) is None {
        Some(missing_input_message("prospects_json"@))
    } else if present(m, "reps_json"@) is None {
        Some(missing_input_message("reps_json"@))
    } else if present(m, "campaign_budget_minor"@) is None {
        Some(missing_input_message("campaign_budget_minor"@))
    } else if parse_i64(present(m, "campaign_budget_minor"@).unwrap()) is None {
        Some("invalid campaign_budget_minor: "@ + i64_error_text(present(m, "campaign_budget_minor"@).unwrap()))
    } else {
        None
    }
}

impl PlanOutboundCampaignInput {
    /// Reads the input: the campaign name, prospects, reps and budget (an
    /// `i64`) are required; the outreach cost is optional.
    pub fn from_map(inputs: &HashMap<String, String>) -> (r: Result<Self, Status>)
        ensures
            match campaign_input_error(input_model(*inputs)) {
                Some(msg) => r matches Err(s) && invalid_argument(s, msg),
                None => r matches Ok(i) && {
                    let m = input_model(*inputs);
                    &&& Some(i.campaign_name@) == present(m, "campaign_name"@)
                    &&& Some(i.prospects_json@) == present(m, "prospects_json"@)
                    &&& Some(i.reps_json@) == present(m, "reps_json"@)
                    &&& Some(i.campaign_budget_minor as int) == parse_i64(present(m, "campaign_budget_minor"@).unwrap())
                    &&& match i.outreach_cost_minor {
                        Some(v) => present_i64(m, "outreach_cost_minor"@) == Some(v as int),
                        None => present_i64(m, "outreach_cost_minor"@) is None,
                    }
                },
            },
    {
        let campaign_name = owned(required_input(inputs, "campaign_name")?);
        let prospects_json = owned(required_input(inputs, "prospects_json")?);
        let reps_json = owned(required_input(inputs, "reps_json")?);
        let budget_text = required_input(inputs, "campaign_budget_minor")?;
        let campaign_budget_minor = match parse_i64_reporting(budget_text) {
            Ok(v) => v,
            Err(e) => {
                return Err(
                    Status {
                        code: StatusCode::InvalidArgument,
                        message: concat2("invalid campaign_budget_minor: ", e.as_str()),
                    },
                );
            },
        };
        Ok(
            PlanOutboundCampaignInput {
                campaign_name,
                prospects_json,
                reps_json,
                campaign_budget_minor,
                outreach_cost_minor: optional_i64(inputs, "outreach_cost_minor"),
            },
        )
    }

    /// The cost of one outreach: as given, or 2 500.
    pub fn outreach_cost(&self) -> (r: i64)
        ensures
            r == match self.outreach_cost_minor {
                Some(c) => c,
                None => DEFAULT_OUTREACH_COST_MINOR,
            },
    {
        match self.outreach_cost_minor {
            Some(c) => c,
            None => DEFAULT_OUTREACH_COST_MINOR,
        }
    }
}

/// The slug of a campaign name, `campaign` where nothing is left of it.
pub open spec fn campaign_slug_of(name: Seq<char>) -> Seq<char> {
    if slug_of(name).len() == 0 {
        "campaign"@
    } else {
        slug_of(name)
    }
}

/// The slug of a campaign name: its runtime scope.
pub fn campaign_slug(name: &str) -> (r: String)
    ensures
        r@ == campaign_slug_of(name@),
{
    let s = slug(name);
    if s.unicode_len() == 0 {
        owned("campaign")
    } else {
        s
    }
}

/// A sales rep's capacity, as the capacity check reads it.
#[derive(Debug, Clone, Copy)]
pub struct RepCapacity {
    pub capacity: i64,
    pub current_load: i64,
}

/// The room a rep has left: capacity less load, not below zero.
pub open spec fn room(r: RepCapacity) -> int {
    if r.capacity - r.current_load > 0 {
        r.capacity - r.current_load
    } else {
        0
    }
}

/// The total capacity of the first `n` reps.
pub open spec fn total_capacity(reps: Seq<RepCapacity>, n: int) -> int
    decreases n,
{
    if n <= 0 {
        0
    } else {
        total_capacity(reps, n - 1) + reps[n - 1].capacity
    }
}

/// The total room of the first `n` reps.
pub open spec fn total_room(reps: Seq<RepCapacity>, n: int) -> int
    decreases n,
{
    if n <= 0 {
        0
    } else {
        total_room(reps, n - 1) + room(reps[n - 1])
    }
}

/// Every running total stays within `i64`, and so does every rep's room.
pub open spec fn capacity_fits(reps: Seq<RepCapacity>) -> bool {
    &&& forall|n: int| 0 <= n <= reps.len() ==> i64::MIN <= #[trigger] total_capacity(reps, n) <= i64::MAX
    &&& forall|n: int| 0 <= n <= reps.len() ==> i64::MIN <= #[trigger] total_room(reps, n) <= i64::MAX
    &&& forall|i: int| 0 <= i < reps.len() ==> i64::MIN <= (#[trigger] reps[i]).capacity - reps[i].current_load <= i64::MAX
}

/// The capacity of the sales team: total capacity, total room left, and
/// how many reps there are.
#[derive(Debug, Clone, Copy, PartialEq, Eq, Structural)]
pub struct CapacityStatus {
    pub total_capacity: i64,
    pub total_available_capacity: i64,
    pub rep_count: usize,
}

/// The capacity of the sales team.
pub fn capacity_status(reps: &Vec<RepCapacity>) -> (r: CapacityStatus)
    requires
        capacity_fits(reps@),
    ensures
        r.total_capacity == total_capacity(reps@, reps@.len() as int),
        r.total_available_capacity == total_room(reps@, reps@.len() as int),
        r.rep_count == reps@.len(),
{
    let mut total: i64 = 0;
    let mut available: i64 = 0;
    let n = reps.len();
    let mut i: usize = 0;
    while i < n
        invariant
            n == reps@.len(),
            i <= n,
            capacity_fits(reps@),
            total == total_capacity(reps@, i as int),
            available == total_room(reps@, i as int),
        decreases n - i,
    {
        let r = reps[i];
        proof {
            assert(i64::MIN <= total_capacity(reps@, i + 1) <= i64::MAX);
            assert(i64::MIN <= total_room(reps@, i + 1) <= i64::MAX);
            assert(i64::MIN <= reps@[i as int].capacity - reps@[i as int].current_load <= i64::MAX);
        }
        total = total + r.capacity;
        let left = r.capacity - r.current_load;
        available = available + if left > 0 {
            left
        } else {
            0
        };
        i = i + 1;
    }
    CapacityStatus { total_capacity: total, total_available_capacity: available, rep_count: n }
}

/// Whether the plan stays within budget, and what it costs.
#[derive(Debug, Clone, Copy, PartialEq, Eq, Structural)]
pub struct BudgetStatus {
    pub within_budget: bool,
    pub estimated_spend_minor: i64,
    pub budget_minor: i64,
    pub approval_required: bool,
}

/// Checks a plan against the budget: one outreach per assignment; over
/// budget needs approval.
pub fn budget_status(assignments: usize, outreach_cost_minor: i64, budget_minor: i64) -> (r: BudgetStatus)
    requires
        i64::MIN <= assignments * outreach_cost_minor <= i64::MAX,
        assignments <= i64::MAX,
    ensures
        r.estimated_spend_minor == assignments * outreach_cost_minor,
        r.within_budget == (assignments * outreach_cost_minor <= budget_minor),
        r.budget_minor == budget_minor,
        r.approval_required == !r.within_budget,
{
    let spend = (assignments as i64) * outreach_cost_minor;
    let within = spend <= budget_minor;
    BudgetStatus { within_budget: within, estimated_spend_minor: spend, budget_minor, approval_required: !within }
}

/// Strictly increasing, hence without repeats.
pub open spec fn strictly_increasing(s: Seq<u128>) -> bool {
    forall|i: int, j: int| 0 <= i < j < s.len() ==> s[i] < s[j]
}

/// The organizations a plan touches: every organization of an assignment,
/// each once, in ascending order of id.
pub fn related_organizations(assignment_orgs: &Vec<Option<u128>>) -> (r: Vec<u128>)
    ensures
        strictly_increasing(r@),
        forall|id: u128| r@.contains(id) <==> assignment_orgs@.contains(Some(id)),
{
    let mut out: Vec<u128> = Vec::new();
    let n = assignment_orgs.len();
    let mut i: usize = 0;
    while i < n
        invariant
            n == assignment_orgs@.len(),
            i <= n,
            strictly_increasing(out@),
            forall|id: u128| out@.contains(id) <==> assignment_orgs@.take(i as int).contains(Some(id)),
        decreases n - i,
    {
        let ghost prev_out = out@;
        match assignment_orgs[i] {
            Some(id) => {
                let mut pos: usize = 0;
                while pos < out.len() && out[pos] < id
                    invariant
                        pos <= out@.len(),
                        forall|k: int| 0 <= k < pos ==> out@[k] < id,
                    decreases out@.len() - pos,
                {
                    pos = pos + 1;
                }
                if pos < out.len() && out[pos] == id {
                    assert(out@[pos as int] == id);
                } else {
                    let ghost before = out@;
                    out.insert(pos, id);
                    assert forall|a: int, b: int| 0 <= a < b < out@.len() implies out@[a] < out@[b] by {
                        if b < pos {
                        } else if b == pos {
                        } else if a < pos {
                            assert(out@[b] == before[b - 1]);
                            if pos < before.len() {
                                assert(before[pos as int] > id);
                                assert(before[pos as int] <= before[b - 1]);
                            }
                        } else if a == pos {
                            assert(out@[b] == before[b - 1]);
                            assert(before[pos as int] <= before[b - 1]);
                        } else {
                            assert(out@[a] == before[a - 1] && out@[b] == before[b - 1]);
                        }
                    }
                    assert forall|x: u128| out@.contains(x) <==> (before.contains(x) || x == id) by {
                        if out@.contains(x) {
                            let k = choose|k: int| 0 <= k < out@.len() && out@[k] == x;
                            if k < pos {
                                assert(before[k] == x);
                            } else if k > pos {
                                assert(before[k - 1] == x);
                            }
                        }
                        if before.contains(x) {
                            let k = choose|k: int| 0 <= k < before.len() && before[k] == x;
                            if k < pos {
                                assert(out@[k] == x);
                            } else {
                                assert(out@[k + 1] == x);
                            }
                        }
                        if x == id {
                            assert(out@[pos as int] == id);
                        }
                    }
                }
            },
            None => {},
        }
        assert forall|x: u128| out@.contains(x) <==> (prev_out.contains(x) || assignment_orgs@[i as int] == Some(x)) by {
            match assignment_orgs@[i as int] {
                Some(id) => {
                    if x == id && prev_out.contains(x) {
                    }
                },
                None => {},
            }
        }
        proof {
            let t = assignment_orgs@.take(i + 1);
            assert(t =~= assignment_orgs@.take(i as int).push(assignment_orgs@[i as int]));
            assert forall|x: u128| t.contains(Some(x)) <==> (assignment_orgs@.take(i as int).contains(Some(x))
                || assignment_orgs@[i as int] == Some(x)) by {
                if t.contains(Some(x)) {
                    let k = choose|k: int| 0 <= k < t.len() && t[k] == Some(x);
                    if k < i {
                        assert(assignment_orgs@.take(i as int)[k] == Some(x));
                    }
                }
                if assignment_orgs@.take(i as int).contains(Some(x)) {
                    let k = choose|k: int| 0 <= k < i && assignment_orgs@.take(i as int)[k] == Some(x);
                    assert(t[k] == Some(x));
                }
                if assignment_orgs@[i as int] == Some(x) {
                    assert(t[i as int] == Some(x));
                }
            }
            assert forall|x: u128| out@.contains(x) <==> t.contains(Some(x)) by {
                assert(prev_out.contains(x) <==> assignment_orgs@.take(i as int).contains(Some(x)));
                assert(out@.contains(x) <==> (prev_out.contains(x) || assignment_orgs@[i as int] == Some(x)));
                assert(t.contains(Some(x)) <==> (assignment_orgs@.take(i as int).contains(Some(x))
                    || assignment_orgs@[i as int] == Some(x)));
            }
        }
        i = i + 1;
    }
    assert(assignment_orgs@.take(n as int) =~= assignment_orgs@);
    out
}

/// The title of the workflow case of a campaign that needs approval.
pub fn campaign_case_title(campaign_name: &str) -> (r: String)
    ensures
        r@ == "Outbound campaign: "@ + campaign_name@,
{
    concat2("Outbound campaign: ", campaign_name)
}

/// The title of the document that holds a campaign's plan.
pub fn campaign_plan_title(campaign_name: &str) -> (r: String)
    ensures
        r@ == "Campaign plan: "@ + campaign_name@,
{
    concat2("Campaign plan: ", campaign_name)
}

/// The subject of the activity that records an assignment.
pub fn assignment_subject(lead_id: &str) -> (r: String)
    ensures
        r@ == "Outbound assignment for "@ + lead_id@,
{
    concat2("Outbound assignment for ", lead_id)
}

} // verus!
