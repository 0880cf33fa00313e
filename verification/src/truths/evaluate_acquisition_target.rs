//! evaluate-acquisition-target: a due-diligence run on a target company
//! within a search and model-call budget, with a governance gate that holds
//! the recommendation while research contradicts itself.
use std::collections::HashMap;
use vstd::prelude::*;
use crate::inputs::{input_model, present};
use crate::runtime::Status;
use crate::text::{
    concat2, concat3, int_decimal, opt_text, owned, parse_usize, parse_usize_text, replace_char,
    replace_char_text, starts_with_text, str_eq, str_starts_with, texts, to_lowercase_text,
    unicode_lowercase, usize_text,
};
use crate::truths::common::{invalid_argument, missing_input_message, optional_input, required_input};

verus! {

/// What the truth is run with.
#[derive(Debug, Clone)]
pub struct EvaluateAcquisitionTargetInput {
    pub target_company: String,
    pub focus_areas: Option<String>,
    pub max_searches: Option<usize>,
    pub max_llm_calls: Option<usize>,
}

/// A present value read as a `usize`, where it reads as one.
pub open spec fn present_usize(m: Map<Seq<char>, Seq<char>>, k: Seq<char>) -> Option<int> {
    match present(m, k) {
        Some(t) => parse_usize(t),
        None => None,
    }
}

fn optional_usize(inputs: &HashMap<String, String>, key: &str) -> (r: Option<usize>)
    ensures
        match r {
            Some(v) => present_usize(input_model(*inputs), key@) == Some(v as int),
            None => present_usize(input_model(*inputs), key@) is None,
        },
{
    match optional_input(inputs, key) {
        Some(v) => parse_usize_text(v.as_str()),
        None => None,
    }
}

impl EvaluateAcquisitionTargetInput {
    /// Reads the input: the target company is required; the focus areas and
    /// the two budgets are optional, a budget that is not a number being
    /// ignored.
    pub fn from_map(inputs: &HashMap<String, String>) -> (r: Result<Self, Status>)
        ensures
            match present(input_model(*inputs), "target_company"@) {
                None => r matches Err(s) && invalid_argument(s, missing_input_message("target_company"@)),
                Some(t) => r matches Ok(i) && {
                    let m = input_model(*inputs);
                    &&& i.target_company@ == t
                    &&& opt_text(i.focus_areas) == present(m, "focus_areas"@)
                    &&& match i.max_searches {
                        Some(v) => present_usize(m, "max_searches"@) == Some(v as int),
                        None => present_usize(m, "max_searches"@) is None,
                    }
                    &&& match i.max_llm_calls {
                        Some(v) => present_usize(m, "max_llm_calls"@) == Some(v as int),
                        None => present_usize(m, "max_llm_calls"@) is None,
                    }
                },
            },
    {
        let target_company = owned(required_input(inputs, "target_company")?);
        Ok(
            EvaluateAcquisitionTargetInput {
                target_company,
                focus_areas: optional_input(inputs, "focus_areas"),
                max_searches: optional_usize(inputs, "max_searches"),
                max_llm_calls: optional_usize(inputs, "max_llm_calls"),
            },
        )
    }

    /// The research budget: searches (10 by default) and model calls (8 by
    /// default).
    pub fn budget_limits(&self) -> (r: (usize, usize))
        ensures
            r.0 == match self.max_searches {
                Some(v) => v,
                None => 10,
            },
            r.1 == match self.max_llm_calls {
                Some(v) => v,
                None => 8,
            },
    {
        (
            match self.max_searches {
                Some(v) => v,
                None => 10,
            },
            match self.max_llm_calls {
                Some(v) => v,
                None => 8,
            },
        )
    }
}

/// `dd:{company}`, the company lower-cased with its spaces as dashes: the
/// runtime scope of a due-diligence run.
pub open spec fn dd_scope(company: Seq<char>) -> Seq<char> {
    "dd:"@ + replace_char(unicode_lowercase(company), ' ', '-')
}

/// The runtime scope of a due-diligence run on `company`.
pub fn dd_scope_id(company: &str) -> (r: String)
    ensures
        r@ == dd_scope(company@),
{
    let lower = to_lowercase_text(company);
    let dashed = replace_char_text(lower.as_str(), ' ', '-');
    concat2("dd:", dashed.as_str())
}

/// The reasoning system behind a research plan.
#[derive(Debug, Clone, Copy, PartialEq, Eq, Structural)]
pub enum ReasoningSystem {
    DomainModel,
    CausalAnalysis,
    ConstraintSolver,
    CostEstimation,
}

/// A research plan: what it is for, who reasons it, its one step and what
/// that step should bring.
#[derive(Debug, Clone)]
pub struct DdPlan {
    pub title: String,
    pub contributor: ReasoningSystem,
    pub action: String,
    pub expected_effect: String,
}

/// The intent of a due-diligence run: `Build a due diligence brief for
/// {company}`.
pub fn dd_intent_text(company: &str) -> (r: String)
    ensures
        r@ == "Build a due diligence brief for "@ + company@,
{
    concat2("Build a due diligence brief for ", company)
}

/// The four research vectors a run starts from: two searches in breadth
/// (product and market; competition and growth) and two in depth
/// (architecture; finances and ownership), each with its reasoning system.
pub fn build_dd_plans(company: &str) -> (r: Vec<DdPlan>)
    ensures
        r@.len() == 4,
        r@[0].contributor == ReasoningSystem::DomainModel,
        r@[0].action@ == "[breadth] "@ + company@ + " products customers market position overview"@,
        r@[1].contributor == ReasoningSystem::CausalAnalysis,
        r@[1].action@ == "[breadth] "@ + company@ + " competitors trends growth tech stack USP"@,
        r@[2].contributor == ReasoningSystem::ConstraintSolver,
        r@[2].action@ == "[depth] "@ + company@ + " technology architecture platform integrations API"@,
        r@[3].contributor == ReasoningSystem::CostEstimation,
        r@[3].action@ == "[depth] "@ + company@ + " revenue ARR funding investors ownership financials"@,
        r@[0].title@ == "Search wide for product, customer, and market context"@,
        r@[1].title@ == "Search wide for competitors, growth, and positioning"@,
        r@[2].title@ == "Search deep for architecture and integration evidence"@,
        r@[3].title@ == "Search deep for financial and ownership evidence"@,
        r@[0].expected_effect@ == "discover product scope, customer segments, and market presence"@,
        r@[1].expected_effect@ == "map competitive landscape and growth trajectory"@,
        r@[2].expected_effect@ == "understand technical moat and integration surface"@,
        r@[3].expected_effect@ == "find financial metrics and ownership structure"@,
{
    let mut plans: Vec<DdPlan> = Vec::new();
    plans.push(
        DdPlan {
            title: owned("Search wide for product, customer, and market context"),
            contributor: ReasoningSystem::DomainModel,
            action: concat3("[breadth] ", company, " products customers market position overview"),
            expected_effect: owned("discover product scope, customer segments, and market presence"),
        },
    );
    plans.push(
        DdPlan {
            title: owned("Search wide for competitors, growth, and positioning"),
            contributor: ReasoningSystem::CausalAnalysis,
            action: concat3("[breadth] ", company, " competitors trends growth tech stack USP"),
            expected_effect: owned("map competitive landscape and growth trajectory"),
        },
    );
    plans.push(
        DdPlan {
            title: owned("Search deep for architecture and integration evidence"),
            contributor: ReasoningSystem::ConstraintSolver,
            action: concat3("[depth] ", company, " technology architecture platform integrations API"),
            expected_effect: owned("understand technical moat and integration surface"),
        },
    );
    plans.push(
        DdPlan {
            title: owned("Search deep for financial and ownership evidence"),
            contributor: ReasoningSystem::CostEstimation,
            action: concat3("[depth] ", company, " revenue ARR funding investors ownership financials"),
            expected_effect: owned("find financial metrics and ownership structure"),
        },
    );
    plans
}

/// Whether an evaluation records a contradiction.
pub open spec fn is_contradiction(id: Seq<char>) -> bool {
    starts_with_text(id, "contradiction-"@)
}

/// The ids of the evaluations that record contradictions, in order.
pub open spec fn contradiction_ids(ids: Seq<Seq<char>>) -> Seq<Seq<char>> {
    ids.filter(|id: Seq<char>| is_contradiction(id))
}

/// The contradictions among the evaluations, by id, in order.
pub fn collect_contradictions(evaluation_ids: &Vec<String>) -> (r: Vec<String>)
    ensures
        texts(r@) == contradiction_ids(texts(evaluation_ids@)),
{
    let mut out: Vec<String> = Vec::new();
    let n = evaluation_ids.len();
    let mut i: usize = 0;
    while i < n
        invariant
            n == evaluation_ids@.len(),
            i <= n,
            texts(out@) == contradiction_ids(texts(evaluation_ids@.take(i as int))),
        decreases n - i,
    {
        proof {
            reveal(Seq::filter);
            assert(texts(evaluation_ids@.take(i + 1)).drop_last() =~= texts(evaluation_ids@.take(i as int)));
        }
        let ghost prev = out@;
        if str_starts_with(evaluation_ids[i].as_str(), "contradiction-") {
            out.push(evaluation_ids[i].clone());
            assert(texts(out@) =~= texts(prev).push(evaluation_ids@[i as int]@));
        }
        i = i + 1;
    }
    assert(evaluation_ids@.take(n as int) =~= evaluation_ids@);
    out
}

/// Whether the governance gate acts: some evaluation records a
/// contradiction and none yet requires human review.
pub fn contradiction_gate_accepts(evaluation_ids: &Vec<String>) -> (r: bool)
    ensures
        r == ((exists|i: int| 0 <= i < evaluation_ids@.len() && is_contradiction(#[trigger] evaluation_ids@[i]@))
            && !texts(evaluation_ids@).contains("dd:human-review-required"@)),
{
    let mut any_contradiction = false;
    let mut reviewed = false;
    let n = evaluation_ids.len();
    let mut i: usize = 0;
    while i < n
        invariant
            n == evaluation_ids@.len(),
            i <= n,
            any_contradiction == (exists|j: int| 0 <= j < i && is_contradiction(#[trigger] evaluation_ids@[j]@)),
            reviewed == (exists|j: int| 0 <= j < i && #[trigger] evaluation_ids@[j]@ == "dd:human-review-required"@),
        decreases n - i,
    {
        if str_starts_with(evaluation_ids[i].as_str(), "contradiction-") {
            any_contradiction = true;
        }
        if str_eq(evaluation_ids[i].as_str(), "dd:human-review-required") {
            reviewed = true;
        }
        i = i + 1;
    }
    proof {
        if texts(evaluation_ids@).contains("dd:human-review-required"@) {
            let j = choose|j: int| 0 <= j < texts(evaluation_ids@).len() && texts(evaluation_ids@)[j] == "dd:human-review-required"@;
            assert(evaluation_ids@[j]@ == "dd:human-review-required"@);
        }
        if reviewed {
            let j = choose|j: int| 0 <= j < n && #[trigger] evaluation_ids@[j]@ == "dd:human-review-required"@;
            assert(texts(evaluation_ids@)[j] == "dd:human-review-required"@);
        }
    }
    any_contradiction && !reviewed
}

/// The statement that closes a due-diligence run: `Due diligence for
/// {company} completed: {h} hypotheses, {c} contradictions`, then whether a
/// synthesis came out.
pub open spec fn dd_statement(company: Seq<char>, hypotheses: int, contradictions: int, synthesized: bool) -> Seq<char> {
    "Due diligence for "@ + company + " completed: "@ + int_decimal(hypotheses) + " hypotheses, "@
        + int_decimal(contradictions) + " contradictions"@ + if synthesized {
        ", synthesis produced"@
    } else {
        ", no synthesis (budget or convergence limit)"@
    }
}

/// The fact that closes a due-diligence run: its statement, and its
/// confidence (8 000 with a synthesis, 5 000 without).
pub fn dd_fact(company: &str, hypotheses: usize, contradictions: usize, synthesized: bool) -> (r: (String, u16))
    ensures
        r.0@ == dd_statement(company@, hypotheses as int, contradictions as int, synthesized),
        r.1 == if synthesized {
            8000u16
        } else {
            5000u16
        },
{
    let h = usize_text(hypotheses);
    let c = usize_text(contradictions);
    let a = concat3("Due diligence for ", company, " completed: ");
    let b = concat3(a.as_str(), h.as_str(), " hypotheses, ");
    let d = concat3(b.as_str(), c.as_str(), " contradictions");
    let tail = if synthesized {
        ", synthesis produced"
    } else {
        ", no synthesis (budget or convergence limit)"
    };
    (concat2(d.as_str(), tail), if synthesized { 8000 } else { 5000 })
}

} // verus!
