//! The showcase pipeline: score-inbound-fit, then qualify-inbound-lead, then
//! schedule-strategic-meetings. Each step is a truth execution; the
//! coordinator maps the outputs of one step to the inputs of the next and
//! stops at the first step that is blocked or fails.
use std::collections::HashMap;
use vstd::prelude::*;
use crate::billing::insert_string;
use crate::inputs::{empty_inputs, input_model, no_inputs};
use crate::json::{json_opt_number, json_opt_string, json_quote, json_string, push_json_opt_string};
use crate::runtime::{ProjectedFact, Status, TruthExecutionArtifacts};
use crate::truths::score_inbound_fit::score_statement;
use crate::text::{
    concat2, concat3, contains_text, int_decimal, is_ascii_digit, is_space, lemma_nat_decimal_digits,
    lemma_parse_nat_decimal, lemma_words_concat, lemma_words_word_space, nat_decimal, opt_text, owned,
    parse_u16, parse_u16_text, push_text, split_words, str_contains, str_eq, u16_text, u32_text, words,
    i64_text,
};

verus! {

// ---------------------------------------------------------------- types

/// How a pipeline run ended.
#[derive(Debug, Clone)]
pub enum PipelineStatus {
    Completed,
    BlockedAtStep { step: usize, reason: String },
    Failed { step: usize, error: String },
}

/// How one step of a pipeline run ended.
#[derive(Debug, Clone)]
pub enum StepStatus {
    Completed,
    Blocked { reason: String },
    Skipped,
    Failed { error: String },
}

/// One step of a pipeline run.
#[derive(Debug, Clone)]
pub struct PipelineStepResult {
    pub truth_key: String,
    pub status: StepStatus,
    pub cycles: Option<u32>,
    pub stop_reason: Option<String>,
    pub fact_count: Option<usize>,
}

/// A pipeline run: its steps in order, how it ended, and for whom.
#[derive(Debug, Clone)]
pub struct PipelineResult {
    pub steps: Vec<PipelineStepResult>,
    pub status: PipelineStatus,
    pub prospect_name: String,
}

/// What the showcase pipeline is run with.
#[derive(Debug, Clone)]
pub struct ShowcasePipelineInput {
    pub prospect_name: String,
    pub visitor_id: String,
    pub usage_events_json: String,
    pub inbound_summary: String,
    pub meeting_count: u32,
    pub window_start: String,
    pub window_end: String,
    pub calendar_slots_json: Option<String>,
    pub industry: Option<String>,
    pub website: Option<String>,
    pub contact_name: Option<String>,
    pub contact_title: Option<String>,
    pub contact_email: Option<String>,
}

/// The content of a step status.
pub enum StepStatusModel {
    Completed,
    Blocked { reason: Seq<char> },
    Skipped,
    Failed { error: Seq<char> },
}

/// The content of a step.
pub struct StepModel {
    pub truth_key: Seq<char>,
    pub status: StepStatusModel,
    pub cycles: Option<u32>,
    pub stop_reason: Option<Seq<char>>,
    pub fact_count: Option<usize>,
}

/// The content of a pipeline status.
pub enum PipelineStatusModel {
    Completed,
    BlockedAtStep { step: usize, reason: Seq<char> },
    Failed { step: usize, error: Seq<char> },
}

/// The content of a pipeline run.
pub struct PipelineModel {
    pub steps: Seq<StepModel>,
    pub status: PipelineStatusModel,
    pub prospect_name: Seq<char>,
}

impl View for StepStatus {
    type V = StepStatusModel;

    open spec fn view(&self) -> StepStatusModel {
        match self {
            StepStatus::Completed => StepStatusModel::Completed,
            StepStatus::Blocked { reason } => StepStatusModel::Blocked { reason: reason@ },
            StepStatus::Skipped => StepStatusModel::Skipped,
            StepStatus::Failed { error } => StepStatusModel::Failed { error: error@ },
        }
    }
}

impl View for PipelineStepResult {
    type V = StepModel;

    open spec fn view(&self) -> StepModel {
        StepModel {
            truth_key: self.truth_key@,
            status: self.status@,
            cycles: self.cycles,
            stop_reason: opt_text(self.stop_reason),
            fact_count: self.fact_count,
        }
    }
}

impl View for PipelineStatus {
    type V = PipelineStatusModel;

    open spec fn view(&self) -> PipelineStatusModel {
        match self {
            PipelineStatus::Completed => PipelineStatusModel::Completed,
            PipelineStatus::BlockedAtStep { step, reason } => PipelineStatusModel::BlockedAtStep {
                step: *step,
                reason: reason@,
            },
            PipelineStatus::Failed { step, error } => PipelineStatusModel::Failed {
                step: *step,
                error: error@,
            },
        }
    }
}

/// The content of a sequence of steps.
pub open spec fn steps_model(steps: Seq<PipelineStepResult>) -> Seq<StepModel> {
    steps.map_values(|s: PipelineStepResult| s@)
}

impl View for PipelineResult {
    type V = PipelineModel;

    open spec fn view(&self) -> PipelineModel {
        PipelineModel {
            steps: steps_model(self.steps@),
            status: self.status@,
            prospect_name: self.prospect_name@,
        }
    }
}

// ---------------------------------------------------------------- step inputs

/// Stores `value` under `key` where there is one.
pub open spec fn put_opt(
    m: Map<Seq<char>, Seq<char>>,
    key: Seq<char>,
    value: Option<Seq<char>>,
) -> Map<Seq<char>, Seq<char>> {
    match value {
        Some(v) => m.insert(key, v),
        None => m,
    }
}

/// The inputs of score-inbound-fit: the prospect's name, visitor id and
/// usage events, and its industry and website where known.
pub open spec fn score_inputs(input: ShowcasePipelineInput) -> Map<Seq<char>, Seq<char>> {
    let m = no_inputs().insert("organization_name"@, input.prospect_name@).insert(
        "visitor_id"@,
        input.visitor_id@,
    ).insert("usage_events_json"@, input.usage_events_json@);
    put_opt(put_opt(m, "industry"@, opt_text(input.industry)), "website"@, opt_text(input.website))
}

/// The inputs of qualify-inbound-lead: the prospect's name and inbound
/// summary; the organization id where step one projected one; the fit score
/// on a 0..100 scale (basis points divided by 100) where step one gave one;
/// and the industry, website and contact where known.
pub open spec fn qualify_inputs(
    input: ShowcasePipelineInput,
    org_id: Option<Seq<char>>,
    fit_score_bps: Option<u16>,
) -> Map<Seq<char>, Seq<char>> {
    let m = no_inputs().insert("organization_name"@, input.prospect_name@).insert(
        "inbound_summary"@,
        input.inbound_summary@,
    );
    let m = put_opt(m, "organization_id"@, org_id);
    let m = put_opt(
        m,
        "fit_score"@,
        match fit_score_bps {
            Some(f) => Some(int_decimal((f / 100) as int)),
            None => None,
        },
    );
    let m = put_opt(m, "industry"@, opt_text(input.industry));
    let m = put_opt(m, "website"@, opt_text(input.website));
    let m = put_opt(m, "contact_name"@, opt_text(input.contact_name));
    let m = put_opt(m, "contact_title"@, opt_text(input.contact_title));
    put_opt(m, "contact_email"@, opt_text(input.contact_email))
}

/// The one-prospect seed that schedule-strategic-meetings reads, as the
/// JSON text serde_json writes for it (keys in sorted order).
pub open spec fn prospect_seed_json(
    input: ShowcasePipelineInput,
    org_id: Option<Seq<char>>,
    fit_score_bps: Option<u16>,
) -> Seq<char> {
    "[{\"contact_email\":"@ + json_opt_string(opt_text(input.contact_email)) + ",\"contact_name\":"@
        + json_opt_string(opt_text(input.contact_name))
        + ",\"estimated_value\":null,\"fit_score_bps\":"@ + json_opt_number(
        match fit_score_bps {
            Some(f) => Some(f as int),
            None => None,
        },
    ) + ",\"last_contact_days_ago\":0,\"name\":"@ + json_string(input.prospect_name@)
        + ",\"organization_id\":"@ + json_opt_string(org_id)
        + ",\"pipeline_stage\":\"qualified\",\"segment\":"@ + json_opt_string(opt_text(input.industry))
        + ",\"tags\":[\"pipeline-showcase\"],\"territory\":null}]"@
}

/// The inputs of schedule-strategic-meetings: the intent text, the
/// requested meeting count, the window, the prospect seed, and the calendar
/// slots where given.
pub open spec fn schedule_inputs(
    input: ShowcasePipelineInput,
    org_id: Option<Seq<char>>,
    fit_score_bps: Option<u16>,
) -> Map<Seq<char>, Seq<char>> {
    let m = no_inputs().insert(
        "intent_text"@,
        "Book "@ + int_decimal(input.meeting_count as int) + " meetings with qualified prospects"@,
    ).insert("requested_count"@, int_decimal(input.meeting_count as int)).insert(
        "window_start"@,
        input.window_start@,
    ).insert("window_end"@, input.window_end@).insert(
        "prospects_json"@,
        prospect_seed_json(input, org_id, fit_score_bps),
    );
    put_opt(m, "calendar_slots_json"@, opt_text(input.calendar_slots_json))
}

fn insert_opt(inputs: &mut HashMap<String, String>, key: &str, value: &Option<String>)
    ensures
        input_model(*final(inputs)) == put_opt(input_model(*old(inputs)), key@, opt_text(*value)),
{
    match value {
        Some(v) => insert_string(inputs, key, v.as_str()),
        None => {},
    }
}

fn opt_str(value: &Option<String>) -> (r: Option<&str>)
    ensures
        match r {
            Some(t) => opt_text(*value) == Some(t@),
            None => value is None,
        },
{
    match value {
        Some(v) => Some(v.as_str()),
        None => None,
    }
}

/// The inputs of the first step.
pub fn build_score_inputs(input: &ShowcasePipelineInput) -> (r: HashMap<String, String>)
    ensures
        input_model(r) == score_inputs(*input),
{
    let mut m = empty_inputs();
    insert_string(&mut m, "organization_name", input.prospect_name.as_str());
    insert_string(&mut m, "visitor_id", input.visitor_id.as_str());
    insert_string(&mut m, "usage_events_json", input.usage_events_json.as_str());
    insert_opt(&mut m, "industry", &input.industry);
    insert_opt(&mut m, "website", &input.website);
    m
}

/// The inputs of the second step.
pub fn build_qualify_inputs(
    input: &ShowcasePipelineInput,
    org_id: Option<&str>,
    fit_score_bps: Option<u16>,
) -> (r: HashMap<String, String>)
    ensures
        input_model(r) == qualify_inputs(
            *input,
            match org_id {
                Some(o) => Some(o@),
                None => None,
            },
            fit_score_bps,
        ),
{
    let mut m = empty_inputs();
    insert_string(&mut m, "organization_name", input.prospect_name.as_str());
    insert_string(&mut m, "inbound_summary", input.inbound_summary.as_str());
    match org_id {
        Some(o) => insert_string(&mut m, "organization_id", o),
        None => {},
    }
    match fit_score_bps {
        Some(f) => {
            let scaled = u16_text(f / 100);
            insert_string(&mut m, "fit_score", scaled.as_str());
        },
        None => {},
    }
    insert_opt(&mut m, "industry", &input.industry);
    insert_opt(&mut m, "website", &input.website);
    insert_opt(&mut m, "contact_name", &input.contact_name);
    insert_opt(&mut m, "contact_title", &input.contact_title);
    insert_opt(&mut m, "contact_email", &input.contact_email);
    m
}

/// The prospect seed of the third step, as JSON text.
pub fn prospect_seed(
    input: &ShowcasePipelineInput,
    org_id: Option<&str>,
    fit_score_bps: Option<u16>,
) -> (r: String)
    ensures
        r@ == prospect_seed_json(
            *input,
            match org_id {
                Some(o) => Some(o@),
                None => None,
            },
            fit_score_bps,
        ),
{
    let mut out = String::new();
    push_text(&mut out, "[{\"contact_email\":");
    push_json_opt_string(&mut out, opt_str(&input.contact_email));
    push_text(&mut out, ",\"contact_name\":");
    push_json_opt_string(&mut out, opt_str(&input.contact_name));
    push_text(&mut out, ",\"estimated_value\":null,\"fit_score_bps\":");
    match fit_score_bps {
        Some(f) => {
            let t = u16_text(f);
            push_text(&mut out, t.as_str());
        },
        None => {
            push_text(&mut out, "null");
            proof {
                reveal_strlit("null");
            }
        },
    }
    push_text(&mut out, ",\"last_contact_days_ago\":0,\"name\":");
    let name = json_quote(input.prospect_name.as_str());
    push_text(&mut out, name.as_str());
    push_text(&mut out, ",\"organization_id\":");
    push_json_opt_string(&mut out, org_id);
    push_text(&mut out, ",\"pipeline_stage\":\"qualified\",\"segment\":");
    push_json_opt_string(&mut out, opt_str(&input.industry));
    push_text(&mut out, ",\"tags\":[\"pipeline-showcase\"],\"territory\":null}]");
    proof {
        reveal_strlit("");
        let ghost o = match org_id {
            Some(x) => Some(x@),
            None => None,
        };
        assert(out@ =~= prospect_seed_json(*input, o, fit_score_bps));
    }
    out
}

/// The inputs of the third step.
pub fn build_schedule_inputs(
    input: &ShowcasePipelineInput,
    org_id: Option<&str>,
    fit_score_bps: Option<u16>,
) -> (r: HashMap<String, String>)
    ensures
        input_model(r) == schedule_inputs(
            *input,
            match org_id {
                Some(o) => Some(o@),
                None => None,
            },
            fit_score_bps,
        ),
{
    let mut m = empty_inputs();
    let count = u32_text(input.meeting_count);
    let intent = concat3("Book ", count.as_str(), " meetings with qualified prospects");
    insert_string(&mut m, "intent_text", intent.as_str());
    insert_string(&mut m, "requested_count", count.as_str());
    insert_string(&mut m, "window_start", input.window_start.as_str());
    insert_string(&mut m, "window_end", input.window_end.as_str());
    let seed = prospect_seed(input, org_id, fit_score_bps);
    insert_string(&mut m, "prospects_json", seed.as_str());
    insert_opt(&mut m, "calendar_slots_json", &input.calendar_slots_json);
    m
}

// ---------------------------------------------------------------- outputs

/// Whether a fact states a fit score.
pub open spec fn is_fit_score_fact(f: ProjectedFact) -> bool {
    contains_text(f.statement@, "fit score"@) || contains_text(f.statement@, "Inbound fit score"@)
}

/// The first number written just before a word `bps` (at index `i` or
/// later, never as the first word) that reads as a `u16`.
pub open spec fn bps_before(ws: Seq<Seq<char>>, i: int) -> Option<int>
    decreases ws.len() - i,
{
    if i >= ws.len() || i < 0 {
        None
    } else if ws[i] == "bps"@ && i > 0 && parse_u16(ws[i - 1]) is Some {
        parse_u16(ws[i - 1])
    } else {
        bps_before(ws, i + 1)
    }
}

/// The score a fit-score fact carries: the number before `bps` in its
/// statement, else its confidence.
pub open spec fn fact_fit_score(f: ProjectedFact) -> u16 {
    match bps_before(words(f.statement@), 0) {
        Some(v) => v as u16,
        None => f.confidence_bps,
    }
}

/// The score of the first fit-score fact among `facts[i..]`.
pub open spec fn fit_score_from(facts: Seq<ProjectedFact>, i: int) -> Option<u16>
    decreases facts.len() - i,
{
    if i >= facts.len() || i < 0 {
        None
    } else if is_fit_score_fact(facts[i]) {
        Some(fact_fit_score(facts[i]))
    } else {
        fit_score_from(facts, i + 1)
    }
}

/// The fit score, in basis points, that the first step's facts state.
pub open spec fn fit_score_of(artifacts: TruthExecutionArtifacts) -> Option<u16> {
    fit_score_from(artifacts.projected_facts@, 0)
}

fn score_from_statement(fact: &ProjectedFact) -> (r: u16)
    ensures
        r == fact_fit_score(*fact),
{
    let ws = split_words(fact.statement.as_str());
    let ghost wv = ws@.map_values(|w: &str| w@);
    let n = ws.len();
    let mut i: usize = 0;
    while i < n
        invariant
            n == ws@.len(),
            wv == ws@.map_values(|w: &str| w@),
            wv == words(fact.statement@),
            i <= n,
            bps_before(wv, 0) == bps_before(wv, i as int),
        decreases n - i,
    {
        if i > 0 && str_eq(ws[i], "bps") {
            match parse_u16_text(ws[i - 1]) {
                Some(score) => {
                    return score;
                },
                None => {},
            }
        }
        i = i + 1;
    }
    fact.confidence_bps
}

/// The fit score in basis points that the first step's facts state: from
/// the first fact about a fit score, the number written before `bps`, or
/// else that fact's confidence; none without such a fact.
pub fn extract_fit_score(artifacts: &TruthExecutionArtifacts) -> (r: Option<u16>)
    ensures
        r == fit_score_of(*artifacts),
{
    let facts = &artifacts.projected_facts;
    let n = facts.len();
    let mut i: usize = 0;
    while i < n
        invariant
            n == facts@.len(),
            *facts == artifacts.projected_facts,
            i <= n,
            fit_score_from(facts@, 0) == fit_score_from(facts@, i as int),
        decreases n - i,
    {
        let f = &facts[i];
        if str_contains(f.statement.as_str(), "fit score") || str_contains(
            f.statement.as_str(),
            "Inbound fit score",
        ) {
            return Some(score_from_statement(f));
        }
        i = i + 1;
    }
    None
}

/// The word `bps`.
spec fn bps_word() -> Seq<char> {
    seq!['b', 'p', 's']
}

proof fn lemma_no_spaces_in_digits(n: nat)
    ensures
        forall|i: int| 0 <= i < nat_decimal(n).len() ==> !is_space(#[trigger] nat_decimal(n)[i]),
        nat_decimal(n).len() > 0,
        nat_decimal(n) != bps_word(),
{
    lemma_nat_decimal_digits(n);
    assert forall|i: int| 0 <= i < nat_decimal(n).len() implies !is_space(#[trigger] nat_decimal(n)[i]) by {
        assert(is_ascii_digit(nat_decimal(n)[i]));
    }
    if nat_decimal(n) == bps_word() {
        assert(is_ascii_digit(nat_decimal(n)[0]));
    }
}

/// The fit score that score-inbound-fit records is the one the pipeline
/// reads back: a fact stating `Inbound fit score {score} bps ...` is a
/// fit-score fact whose score is `score`, whatever its label, rationale and
/// confidence, and a first step whose first fact states it hands `score` on.
pub proof fn law_fit_score_read_back(
    score: u16,
    label: Seq<char>,
    rationale: Seq<char>,
    artifacts: TruthExecutionArtifacts,
)
    requires
        artifacts.projected_facts@.len() > 0,
        artifacts.projected_facts@[0].statement@ == score_statement(score, label, rationale),
    ensures
        is_fit_score_fact(artifacts.projected_facts@[0]),
        fact_fit_score(artifacts.projected_facts@[0]) == score,
        fit_score_of(artifacts) == Some(score),
{
    let fact = artifacts.projected_facts@[0];
    let st = fact.statement@;
    let d = nat_decimal(score as nat);
    reveal_strlit("Inbound fit score ");
    reveal_strlit(" bps (");
    reveal_strlit("fit score");
    let rest = seq!['('] + label + ") with rationale: "@ + rationale;
    let w1 = seq!['I', 'n', 'b', 'o', 'u', 'n', 'd'];
    let w2 = seq!['f', 'i', 't'];
    let w3 = seq!['s', 'c', 'o', 'r', 'e'];
    let sp = seq![' '];
    let tail5 = (bps_word() + sp) + rest;
    let tail4 = (d + sp) + tail5;
    let tail3 = (w3 + sp) + tail4;
    let tail2 = (w2 + sp) + tail3;
    assert(int_decimal(score as int) == d);
    assert(st =~= (w1 + sp) + tail2);
    let pat = "fit score"@;
    assert(pat.len() == 9);
    assert(st.subrange(8, 8 + pat.len() as int) =~= pat);
    assert(contains_text(st, pat));
    assert(is_fit_score_fact(fact));
    assert(is_space(' '));
    lemma_no_spaces_in_digits(score as nat);
    lemma_words_word_space(w1);
    lemma_words_word_space(w2);
    lemma_words_word_space(w3);
    lemma_words_word_space(d);
    lemma_words_word_space(bps_word());
    lemma_words_concat(w1 + sp, tail2);
    lemma_words_concat(w2 + sp, tail3);
    lemma_words_concat(w3 + sp, tail4);
    lemma_words_concat(d + sp, tail5);
    lemma_words_concat(bps_word() + sp, rest);
    let ws = words(st);
    assert(ws =~= seq![w1, w2, w3, d, bps_word()] + words(rest));
    assert(ws[0] != bps_word()) by {
        assert(ws[0].len() != bps_word().len());
    }
    assert(ws[1] != bps_word()) by {
        assert(ws[1][0] != bps_word()[0]);
    }
    assert(ws[2] != bps_word()) by {
        assert(ws[2].len() != bps_word().len());
    }
    assert(bps_word() =~= "bps"@) by {
        reveal_strlit("bps");
    }
    lemma_parse_nat_decimal(score as nat, 0, u16::MAX as int);
    assert(bps_before(ws, 4) == Some(score as int));
    assert(bps_before(ws, 3) == bps_before(ws, 4));
    assert(bps_before(ws, 2) == bps_before(ws, 3));
    assert(bps_before(ws, 1) == bps_before(ws, 2));
    assert(bps_before(ws, 0) == bps_before(ws, 1));
    assert(fit_score_from(artifacts.projected_facts@, 0) == Some(fact_fit_score(fact)));
}

/// Whether a stop reason means that the run waits for a person.
pub open spec fn stop_blocks(stop_reason: Seq<char>) -> bool {
    contains_text(stop_reason, "Blocked"@) || contains_text(stop_reason, "HumanIntervention"@)
}

/// The step that an execution of `truth_key` records: a failure carries the
/// status message and nothing else; a run carries its cycles, stop reason
/// and fact count, and is blocked, with the stop reason, where the stop
/// reason waits for a person.
pub open spec fn step_for(truth_key: Seq<char>, outcome: Result<TruthExecutionArtifacts, Status>) -> StepModel {
    match outcome {
        Ok(a) => StepModel {
            truth_key,
            status: if stop_blocks(a.execution.stop_reason@) {
                StepStatusModel::Blocked { reason: a.execution.stop_reason@ }
            } else {
                StepStatusModel::Completed
            },
            cycles: Some(a.execution.cycles),
            stop_reason: Some(a.execution.stop_reason@),
            fact_count: Some(a.fact_count),
        },
        Err(e) => StepModel {
            truth_key,
            status: StepStatusModel::Failed { error: e.message@ },
            cycles: None,
            stop_reason: None,
            fact_count: None,
        },
    }
}

/// The step result of a run of `truth_key`.
pub fn step_result_from_artifacts(truth_key: &str, artifacts: &TruthExecutionArtifacts) -> (r: PipelineStepResult)
    ensures
        r@ == step_for(truth_key@, Ok(*artifacts)),
{
    let stop = artifacts.execution.stop_reason.as_str();
    let blocked = str_contains(stop, "Blocked") || str_contains(stop, "HumanIntervention");
    PipelineStepResult {
        truth_key: owned(truth_key),
        status: if blocked {
            StepStatus::Blocked { reason: owned(stop) }
        } else {
            StepStatus::Completed
        },
        cycles: Some(artifacts.execution.cycles),
        stop_reason: Some(owned(stop)),
        fact_count: Some(artifacts.fact_count),
    }
}

/// The step result of an execution of `truth_key` that failed.
pub fn failed_step(truth_key: &str, status: &Status) -> (r: PipelineStepResult)
    ensures
        r@ == step_for(truth_key@, Err(*status)),
{
    PipelineStepResult {
        truth_key: owned(truth_key),
        status: StepStatus::Failed { error: status.message.clone() },
        cycles: None,
        stop_reason: None,
        fact_count: None,
    }
}

/// Where the pipeline stops after step `index`: failed with the status
/// message, blocked with `blocked_reason`, or nowhere (it goes on).
pub open spec fn stop_after(
    index: usize,
    outcome: Result<TruthExecutionArtifacts, Status>,
    blocked_reason: Seq<char>,
) -> Option<PipelineStatusModel> {
    match outcome {
        Err(e) => Some(PipelineStatusModel::Failed { step: index, error: e.message@ }),
        Ok(a) => if stop_blocks(a.execution.stop_reason@) {
            Some(PipelineStatusModel::BlockedAtStep { step: index, reason: blocked_reason })
        } else {
            None
        },
    }
}

/// Records step `index` of a run and says whether the run stops there.
pub fn advance_pipeline(
    steps: &mut Vec<PipelineStepResult>,
    index: usize,
    truth_key: &str,
    outcome: &Result<TruthExecutionArtifacts, Status>,
    blocked_reason: &str,
) -> (r: Option<PipelineStatus>)
    ensures
        steps_model(final(steps)@) == steps_model(old(steps)@).push(step_for(truth_key@, *outcome)),
        match r {
            Some(s) => stop_after(index, *outcome, blocked_reason@) == Some(s@),
            None => stop_after(index, *outcome, blocked_reason@) is None,
        },
{
    let ghost before = steps@;
    match outcome {
        Ok(a) => {
            let step = step_result_from_artifacts(truth_key, a);
            let blocked = match &step.status {
                StepStatus::Blocked { .. } => true,
                _ => false,
            };
            steps.push(step);
            assert(steps_model(steps@) =~= steps_model(before).push(step_for(truth_key@, *outcome)));
            if blocked {
                Some(PipelineStatus::BlockedAtStep { step: index, reason: owned(blocked_reason) })
            } else {
                None
            }
        },
        Err(e) => {
            steps.push(failed_step(truth_key, e));
            assert(steps_model(steps@) =~= steps_model(before).push(step_for(truth_key@, *outcome)));
            Some(PipelineStatus::Failed { step: index, error: e.message.clone() })
        },
    }
}

/// The organization that the first step projected, by id.
pub open spec fn projected_org(outcome: Result<TruthExecutionArtifacts, Status>) -> Option<Seq<char>> {
    match outcome {
        Ok(a) => match a.projection {
            Some(p) => opt_text(p.organization_id),
            None => None,
        },
        Err(_) => None,
    }
}

/// What executing a step's truth gave: its artifacts, or the status it
/// failed with.
pub type TruthOutcome = Result<TruthExecutionArtifacts, Status>;

/// The truth that step `i` of the showcase pipeline executes.
pub open spec fn showcase_key(i: int) -> Seq<char> {
    if i == 0 {
        "score-inbound-fit"@
    } else if i == 1 {
        "qualify-inbound-lead"@
    } else {
        "schedule-strategic-meetings"@
    }
}

/// The reason with which a blocked step `i` stops the run.
pub open spec fn showcase_blocked_reason(i: int) -> Seq<char> {
    if i == 0 {
        "score-inbound-fit blocked for review"@
    } else if i == 1 {
        "qualify-inbound-lead blocked for review"@
    } else {
        "schedule-strategic-meetings blocked for confirmation"@
    }
}

/// Whether an outcome stops the run: a failure, or a run that waits for a
/// person.
pub open spec fn outcome_stops(o: TruthOutcome) -> bool {
    match o {
        Err(_) => true,
        Ok(a) => stop_blocks(a.execution.stop_reason@),
    }
}

/// The first of the steps `i..3` whose outcome, among those given, stops
/// the run.
pub open spec fn first_stop(os: Seq<TruthOutcome>, i: int) -> Option<int>
    decreases 3 - i,
{
    if i < 0 || i >= 3 || i >= os.len() {
        None
    } else if outcome_stops(os[i]) {
        Some(i)
    } else {
        first_stop(os, i + 1)
    }
}

/// Whether the outcomes cover a run: one for each step that runs, that is
/// three, or up to the first that stops the run.
pub open spec fn outcomes_cover(os: Seq<TruthOutcome>) -> bool {
    os.len() >= 3 || first_stop(os, 0) is Some
}

/// How many steps run.
pub open spec fn steps_run(os: Seq<TruthOutcome>) -> int {
    match first_stop(os, 0) {
        Some(i) => i + 1,
        None => 3,
    }
}

/// The fit score that the first step hands on.
pub open spec fn carried_fit(os: Seq<TruthOutcome>) -> Option<u16> {
    if os.len() > 0 {
        match os[0] {
            Ok(a) => fit_score_of(a),
            Err(_) => None,
        }
    } else {
        None
    }
}

/// The organization that the first step hands on.
pub open spec fn carried_org(os: Seq<TruthOutcome>) -> Option<Seq<char>> {
    if os.len() > 0 {
        projected_org(os[0])
    } else {
        None
    }
}

/// The inputs of step `i`, after the outcomes `os` of the steps before it.
pub open spec fn showcase_inputs(input: ShowcasePipelineInput, i: int, os: Seq<TruthOutcome>) -> Map<Seq<char>, Seq<char>> {
    if i == 0 {
        score_inputs(input)
    } else if i == 1 {
        qualify_inputs(input, carried_org(os), carried_fit(os))
    } else {
        schedule_inputs(input, carried_org(os), carried_fit(os))
    }
}

/// The run that the outcomes of its steps give: a step for each that ran,
/// and failed or blocked where the first of them stopped it, else
/// completed.
pub open spec fn showcase_result(input: ShowcasePipelineInput, os: Seq<TruthOutcome>) -> PipelineModel {
    PipelineModel {
        steps: Seq::new(steps_run(os) as nat, |i: int| step_for(showcase_key(i), os[i])),
        status: match first_stop(os, 0) {
            Some(i) => match os[i] {
                Err(e) => PipelineStatusModel::Failed { step: i as usize, error: e.message@ },
                Ok(_) => PipelineStatusModel::BlockedAtStep { step: i as usize, reason: showcase_blocked_reason(i) },
            },
            None => PipelineStatusModel::Completed,
        },
        prospect_name: input.prospect_name@,
    }
}

fn showcase_key_text(i: usize) -> (r: &'static str)
    requires
        i < 3,
    ensures
        r@ == showcase_key(i as int),
{
    if i == 0 {
        "score-inbound-fit"
    } else if i == 1 {
        "qualify-inbound-lead"
    } else {
        "schedule-strategic-meetings"
    }
}

fn showcase_blocked_text(i: usize) -> (r: &'static str)
    requires
        i < 3,
    ensures
        r@ == showcase_blocked_reason(i as int),
{
    if i == 0 {
        "score-inbound-fit blocked for review"
    } else if i == 1 {
        "qualify-inbound-lead blocked for review"
    } else {
        "schedule-strategic-meetings blocked for confirmation"
    }
}

fn stops_run(o: &TruthOutcome) -> (r: bool)
    ensures
        r == outcome_stops(*o),
{
    match o {
        Err(_) => true,
        Ok(a) => {
            let stop = a.execution.stop_reason.as_str();
            str_contains(stop, "Blocked") || str_contains(stop, "HumanIntervention")
        },
    }
}

/// The truth and inputs of the next step of a run whose steps so far gave
/// `outcomes`; none once the outcomes cover the run. The second and third
/// steps read the fit score and organization that the first step projected.
pub fn next_step_inputs(input: &ShowcasePipelineInput, outcomes: &Vec<TruthOutcome>) -> (r: Option<
    (&'static str, HashMap<String, String>),
>)
    ensures
        match r {
            None => outcomes_cover(outcomes@),
            Some((key, inputs)) => {
                &&& !outcomes_cover(outcomes@)
                &&& key@ == showcase_key(outcomes@.len() as int)
                &&& input_model(inputs) == showcase_inputs(*input, outcomes@.len() as int, outcomes@)
            },
        },
{
    let n = outcomes.len();
    let mut i: usize = 0;
    while i < n && i < 3
        invariant
            n == outcomes@.len(),
            i <= n,
            i <= 3,
            first_stop(outcomes@, 0) == first_stop(outcomes@, i as int),
        decreases 3 - i,
    {
        if stops_run(&outcomes[i]) {
            return None;
        }
        i = i + 1;
    }
    if n >= 3 {
        return None;
    }
    assert(first_stop(outcomes@, n as int) is None);
    let (fit, org): (Option<u16>, Option<String>) = if n > 0 {
        match &outcomes[0] {
            Ok(a) => (
                extract_fit_score(a),
                match &a.projection {
                    Some(p) => p.organization_id.clone(),
                    None => None,
                },
            ),
            Err(_) => (None, None),
        }
    } else {
        (None, None)
    };
    assert(opt_text(org) == carried_org(outcomes@));
    let inputs = if n == 0 {
        build_score_inputs(input)
    } else if n == 1 {
        build_qualify_inputs(input, opt_str(&org), fit)
    } else {
        build_schedule_inputs(input, opt_str(&org), fit)
    };
    Some((showcase_key_text(n), inputs))
}

/// Runs the showcase pipeline over the outcomes of its steps, given in
/// order, one for each step that runs: it records each step, stops at the
/// first that failed or waits for a person, and otherwise completes after
/// the third.
pub fn run_showcase_pipeline(input: ShowcasePipelineInput, outcomes: &Vec<TruthOutcome>) -> (r: PipelineResult)
    requires
        outcomes_cover(outcomes@),
    ensures
        r@ == showcase_result(input, outcomes@),
{
    let ghost os = outcomes@;
    let mut steps: Vec<PipelineStepResult> = Vec::new();
    let prospect_name = input.prospect_name;
    let mut i: usize = 0;
    while i < 3
        invariant
            os == outcomes@,
            outcomes_cover(os),
            i <= 3,
            first_stop(os, 0) == first_stop(os, i as int),
            steps_model(steps@) =~= Seq::new(i as nat, |j: int| step_for(showcase_key(j), os[j])),
            prospect_name@ == input.prospect_name@,
        decreases 3 - i,
    {
        assert(i < os.len()) by {
            if os.len() < 3 {
                assert(first_stop(os, i as int) is Some);
            }
        }
        let ghost before = steps_model(steps@);
        let stop = advance_pipeline(
            &mut steps,
            i,
            showcase_key_text(i),
            &outcomes[i],
            showcase_blocked_text(i),
        );
        assert(steps_model(steps@) =~= Seq::new((i + 1) as nat, |j: int| step_for(showcase_key(j), os[j])));
        match stop {
            Some(status) => {
                assert(first_stop(os, i as int) == Some(i as int));
                let r = PipelineResult { steps, status, prospect_name };
                assert(r@.steps =~= showcase_result(input, os).steps);
                return r;
            },
            None => {},
        }
        i = i + 1;
    }
    let r = PipelineResult { steps, status: PipelineStatus::Completed, prospect_name };
    assert(r@.steps =~= showcase_result(input, os).steps);
    r
}

// ---------------------------------------------------------------- seed data

/// One behavioural event of a prospect, as the seed data holds it.
#[derive(Debug, Clone)]
pub struct SeedEvent {
    pub visitor_id: String,
    pub timestamp: i64,
    pub event_type: String,
    pub page: String,
}

/// One seed event as a JSON object, keys in sorted order.
pub open spec fn seed_event_json(e: SeedEvent) -> Seq<char> {
    "{\"event_type\":"@ + json_string(e.event_type@) + ",\"page\":"@ + json_string(e.page@)
        + ",\"timestamp\":"@ + int_decimal(e.timestamp as int) + ",\"visitor_id\":"@ + json_string(
        e.visitor_id@,
    ) + "}"@
}

/// The objects of the first `n` seed events, separated by commas.
pub open spec fn seed_event_items(es: Seq<SeedEvent>, n: int) -> Seq<char>
    decreases n,
{
    if n <= 0 {
        Seq::empty()
    } else if n == 1 {
        seed_event_json(es[0])
    } else {
        seed_event_items(es, n - 1) + ","@ + seed_event_json(es[n - 1])
    }
}

/// A prospect's seed events as the JSON array that score-inbound-fit reads.
pub open spec fn seed_events_json(es: Seq<SeedEvent>) -> Seq<char> {
    "["@ + seed_event_items(es, es.len() as int) + "]"@
}

fn push_seed_event(out: &mut String, e: &SeedEvent)
    ensures
        final(out)@ == old(out)@ + seed_event_json(*e),
{
    let ghost before = out@;
    push_text(out, "{\"event_type\":");
    let t = json_quote(e.event_type.as_str());
    push_text(out, t.as_str());
    push_text(out, ",\"page\":");
    let p = json_quote(e.page.as_str());
    push_text(out, p.as_str());
    push_text(out, ",\"timestamp\":");
    let ts = i64_text(e.timestamp);
    push_text(out, ts.as_str());
    push_text(out, ",\"visitor_id\":");
    let v = json_quote(e.visitor_id.as_str());
    push_text(out, v.as_str());
    push_text(out, "}");
    assert(out@ =~= before + seed_event_json(*e));
}

/// A prospect's seed events as the JSON array that score-inbound-fit reads:
/// one object per event, in order.
pub fn events_json_from_seed(events: &Vec<SeedEvent>) -> (r: String)
    ensures
        r@ == seed_events_json(events@),
{
    let mut out = String::new();
    push_text(&mut out, "[");
    let n = events.len();
    let mut i: usize = 0;
    while i < n
        invariant
            n == events@.len(),
            i <= n,
            out@ == "["@ + seed_event_items(events@, i as int),
        decreases n - i,
    {
        if i > 0 {
            push_text(&mut out, ",");
        }
        push_seed_event(&mut out, &events[i]);
        proof {
            if i == 0 {
                assert(seed_event_items(events@, 0) =~= Seq::<char>::empty());
            }
        }
        i = i + 1;
        assert(out@ =~= "["@ + seed_event_items(events@, i as int));
    }
    push_text(&mut out, "]");
    out
}

/// The inbound summary of a seeded prospect.
pub open spec fn seed_summary(prospect_id: Seq<char>) -> Seq<char> {
    "Inbound inquiry from "@ + prospect_id + " via website demo request"@
}

/// The pipeline input for a seeded prospect: `None` where the account data
/// has no row for it; otherwise its company name (or its id), its industry,
/// its events, one meeting in the demo window of 21 to 25 April 2026, and
/// nothing else known.
pub fn showcase_input_from_seed(
    prospect_id: &str,
    account_rows: usize,
    company_name: Option<String>,
    industry: Option<String>,
    events_json: String,
) -> (r: Option<ShowcasePipelineInput>)
    ensures
        account_rows == 0 <==> r is None,
        r matches Some(i) ==> {
            &&& i.prospect_name@ == match company_name {
                Some(n) => n@,
                None => prospect_id@,
            }
            &&& i.visitor_id@ == prospect_id@
            &&& i.usage_events_json == events_json
            &&& i.inbound_summary@ == seed_summary(prospect_id@)
            &&& i.meeting_count == 1
            &&& i.window_start@ == "2026-04-21"@
            &&& i.window_end@ == "2026-04-25"@
            &&& i.calendar_slots_json is None
            &&& i.industry == industry
            &&& i.website is None
            &&& i.contact_name is None
            &&& i.contact_title is None
            &&& i.contact_email is None
        },
{
    if account_rows == 0 {
        return None;
    }
    Some(
        ShowcasePipelineInput {
            prospect_name: match company_name {
                Some(n) => n,
                None => owned(prospect_id),
            },
            visitor_id: owned(prospect_id),
            usage_events_json: events_json,
            inbound_summary: concat3("Inbound inquiry from ", prospect_id, " via website demo request"),
            meeting_count: 1,
            window_start: owned("2026-04-21"),
            window_end: owned("2026-04-25"),
            calendar_slots_json: None,
            industry,
            website: None,
            contact_name: None,
            contact_title: None,
            contact_email: None,
        },
    )
}

} // verus!
