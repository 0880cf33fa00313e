//! schedule-strategic-meetings: ranks prospects by how well they fit the
//! sales strategy and how ready they are to meet, and proposes a slate of
//! meetings in the requested window for a person to confirm.
use std::collections::HashMap;
use vstd::prelude::*;
use crate::inputs::{input_model, present};
use crate::runtime::{Status, StatusCode};
use crate::text::{
    concat2, concat3, int_decimal, is_listed, join, join_texts, opt_text, owned, parse_u32,
    parse_u32_reporting, push_char, str_eq, texts, u16_text, u32_error_text, u32_text,
};
use crate::truths::common::{invalid_argument, missing_input_message, optional_input, required_input};

verus! {

// ---------------------------------------------------------------- input

/// What the truth is run with.
#[derive(Debug, Clone)]
pub struct ScheduleStrategicMeetingsInput {
    pub intent_text: String,
    pub requested_count: u32,
    pub window_start: String,
    pub window_end: String,
    pub prospects_json: String,
    pub strategy_context_json: Option<String>,
    pub calendar_slots_json: Option<String>,
    pub actor_name: Option<String>,
}

/// `invalid requested_count: {error}`.
pub open spec fn invalid_count_message(text: Seq<char>) -> Seq<char> {
    "invalid requested_count: "@ + u32_error_text(text)
}

/// The message of the first input that is missing or unreadable, in the
/// order intent, requested count, window start, window end, prospects; none
/// where all are there.
pub open spec fn schedule_input_error(m: Map<Seq<char>, Seq<char>>) -> Option<Seq<char>> {
    if present(m, "intent_text"@) is None {
        Some(missing_input_message("intent_text"@))
    } else if present(m, "requested_count"@) is None {
        Some(missing_input_message("requested_count"@))
    } else if parse_u32(present(m, "requested_count"@).unwrap()) is None {
        Some(invalid_count_message(present(m, "requested_count"@).unwrap()))
    } else if present(m, "window_start"@) is None {
        Some(missing_input_message("window_start"@))
    } else if present(m, "window_end"@) is None {
        Some(missing_input_message("window_end"@))
    } else if present(m, "prospects_json"@) is None {
        Some(missing_input_message("prospects_json"@))
    } else {
        None
    }
}

impl ScheduleStrategicMeetingsInput {
    /// Reads the input from the run's string inputs, trimmed: the intent,
    /// the requested count (a `u32`), the window and the prospects are
    /// required; the strategy, calendar slots and actor name are optional.
    pub fn from_map(inputs: &HashMap<String, String>) -> (r: Result<Self, Status>)
        ensures
            match schedule_input_error(input_model(*inputs)) {
                Some(msg) => r matches Err(s) && invalid_argument(s, msg),
                None => r matches Ok(i) && {
                    let m = input_model(*inputs);
                    &&& Some(i.intent_text@) == present(m, "intent_text"@)
                    &&& Some(i.requested_count as int) == parse_u32(present(m, "requested_count"@).unwrap())
                    &&& Some(i.window_start@) == present(m, "window_start"@)
                    &&& Some(i.window_end@) == present(m, "window_end"@)
                    &&& Some(i.prospects_json@) == present(m, "prospects_json"@)
                    &&& opt_text(i.strategy_context_json) == present(m, "strategy_context_json"@)
                    &&& opt_text(i.calendar_slots_json) == present(m, "calendar_slots_json"@)
                    &&& opt_text(i.actor_name) == present(m, "actor_name"@)
                },
            },
    {
        let intent_text = owned(required_input(inputs, "intent_text")?);
        let count_text = required_input(inputs, "requested_count")?;
        let requested_count = match parse_u32_reporting(count_text) {
            Ok(n) => n,
            Err(e) => {
                return Err(
                    Status {
                        code: StatusCode::InvalidArgument,
                        message: concat2("invalid requested_count: ", e.as_str()),
                    },
                );
            },
        };
        let window_start = owned(required_input(inputs, "window_start")?);
        let window_end = owned(required_input(inputs, "window_end")?);
        let prospects_json = owned(required_input(inputs, "prospects_json")?);
        Ok(
            ScheduleStrategicMeetingsInput {
                intent_text,
                requested_count,
                window_start,
                window_end,
                prospects_json,
                strategy_context_json: optional_input(inputs, "strategy_context_json"),
                calendar_slots_json: optional_input(inputs, "calendar_slots_json"),
                actor_name: optional_input(inputs, "actor_name"),
            },
        )
    }
}

// ---------------------------------------------------------------- prospects

/// A prospect to consider for a meeting.
#[derive(Debug, Clone)]
pub struct ProspectSeed {
    pub organization_id: Option<u128>,
    pub name: String,
    pub contact_name: Option<String>,
    pub contact_email: Option<String>,
    pub fit_score_bps: Option<u16>,
    pub pipeline_stage: Option<String>,
    pub last_contact_days_ago: Option<u32>,
    /// The readiness points that the estimated deal value earns: the value
    /// over 100 000, clamped to 0..1, times 2 000, truncated; none where
    /// the value is unknown.
    pub estimated_value_score: Option<u32>,
    pub territory: Option<String>,
    pub segment: Option<String>,
    pub tags: Vec<String>,
}

/// The content of a prospect.
pub struct ProspectModel {
    pub organization_id: Option<u128>,
    pub name: Seq<char>,
    pub contact_name: Option<Seq<char>>,
    pub contact_email: Option<Seq<char>>,
    pub fit_score_bps: Option<u16>,
    pub pipeline_stage: Option<Seq<char>>,
    pub last_contact_days_ago: Option<u32>,
    pub estimated_value_score: Option<u32>,
    pub territory: Option<Seq<char>>,
    pub segment: Option<Seq<char>>,
    pub tags: Seq<Seq<char>>,
}

impl View for ProspectSeed {
    type V = ProspectModel;

    open spec fn view(&self) -> ProspectModel {
        ProspectModel {
            organization_id: self.organization_id,
            name: self.name@,
            contact_name: opt_text(self.contact_name),
            contact_email: opt_text(self.contact_email),
            fit_score_bps: self.fit_score_bps,
            pipeline_stage: opt_text(self.pipeline_stage),
            last_contact_days_ago: self.last_contact_days_ago,
            estimated_value_score: self.estimated_value_score,
            territory: opt_text(self.territory),
            segment: opt_text(self.segment),
            tags: texts(self.tags@),
        }
    }
}

fn copy_opt(s: &Option<String>) -> (r: Option<String>)
    ensures
        r == *s,
{
    match s {
        Some(t) => Some(t.clone()),
        None => None,
    }
}

fn copy_texts(v: &Vec<String>) -> (r: Vec<String>)
    ensures
        r@ == v@,
{
    let mut r: Vec<String> = Vec::new();
    let mut i: usize = 0;
    while i < v.len()
        invariant
            i <= v@.len(),
            r@ == v@.subrange(0, i as int),
        decreases v@.len() - i,
    {
        r.push(v[i].clone());
        i = i + 1;
        assert(r@ =~= v@.subrange(0, i as int));
    }
    assert(v@.subrange(0, v@.len() as int) =~= v@);
    r
}

impl ProspectSeed {
    /// A copy with the same content.
    pub fn copy(&self) -> (r: Self)
        ensures
            r@ == self@,
    {
        ProspectSeed {
            organization_id: self.organization_id,
            name: self.name.clone(),
            contact_name: copy_opt(&self.contact_name),
            contact_email: copy_opt(&self.contact_email),
            fit_score_bps: self.fit_score_bps,
            pipeline_stage: copy_opt(&self.pipeline_stage),
            last_contact_days_ago: self.last_contact_days_ago,
            estimated_value_score: self.estimated_value_score,
            territory: copy_opt(&self.territory),
            segment: copy_opt(&self.segment),
            tags: copy_texts(&self.tags),
        }
    }
}

/// The strategy a slate should serve: target segments, priority
/// territories and focus tags.
#[derive(Debug, Clone, Default)]
pub struct StrategyContext {
    pub target_segments: Vec<String>,
    pub priority_territories: Vec<String>,
    pub focus_tags: Vec<String>,
    pub campaign_id: Option<String>,
}

/// Whether `value` is given and listed.
pub open spec fn listed_opt(list: Seq<String>, value: Option<Seq<char>>) -> bool {
    match value {
        Some(v) => texts(list).contains(v),
        None => false,
    }
}

/// How many of the tags (counted with repeats) are focus tags.
pub open spec fn tag_matches(tags: Seq<Seq<char>>, focus: Seq<Seq<char>>) -> nat
    decreases tags.len(),
{
    if tags.len() == 0 {
        0
    } else {
        tag_matches(tags.drop_last(), focus) + if focus.contains(tags.last()) {
            1nat
        } else {
            0nat
        }
    }
}

/// The smaller of two integers.
pub open spec fn min_int(a: int, b: int) -> int {
    if a <= b {
        a
    } else {
        b
    }
}

/// How well a prospect fits the strategy, in basis points: 2 000, plus 30%
/// of its fit score, plus 1 500 in a target segment, plus 1 000 in a
/// priority territory, plus 500 per focus tag up to 1 500; at most 10 000.
pub open spec fn strategy_score(p: ProspectModel, s: StrategyContext) -> int {
    let fit = match p.fit_score_bps {
        Some(f) => f as int,
        None => 0,
    };
    let segment = if listed_opt(s.target_segments@, p.segment) {
        1500int
    } else {
        0
    };
    let territory = if listed_opt(s.priority_territories@, p.territory) {
        1000int
    } else {
        0
    };
    let tags = min_int((tag_matches(p.tags, texts(s.focus_tags@)) * 500) as int, 1500);
    min_int(2000 + fit * 3 / 10 + segment + territory + tags, 10000)
}

/// The readiness points of a pipeline stage.
pub open spec fn stage_points(stage: Option<Seq<char>>) -> int {
    match stage {
        Some(s) => if s == "qualified"@ {
            3000
        } else if s == "discovery"@ {
            2500
        } else if s == "proposal"@ || s == "negotiation"@ {
            3500
        } else if s == "contacted"@ {
            1500
        } else {
            500
        },
        None => 500,
    }
}

/// The readiness points of how recently the prospect was contacted.
pub open spec fn recency_points(days: Option<u32>) -> int {
    match days {
        Some(d) => if d <= 3 {
            2000
        } else if d <= 7 {
            1500
        } else if d <= 14 {
            1000
        } else if d <= 30 {
            500
        } else {
            0
        },
        None => 0,
    }
}

/// How ready a prospect is to meet, in basis points: 2 000, plus its stage
/// points, its recency points and its deal-value points; at most 10 000.
pub open spec fn readiness_score(p: ProspectModel) -> int {
    let value = match p.estimated_value_score {
        Some(v) => v as int,
        None => 0,
    };
    min_int(2000 + stage_points(p.pipeline_stage) + recency_points(p.last_contact_days_ago) + value, 10000)
}

/// The combined score: 60% strategy, 40% readiness, rounded down.
pub open spec fn combined_score(strategy: int, readiness: int) -> int {
    (strategy * 6 + readiness * 4) / 10
}

/// Prospects whose deal-value points are in range and whose tags can be
/// counted in 32 bits.
pub open spec fn prospect_in_range(p: ProspectModel) -> bool {
    &&& p.estimated_value_score matches Some(v) ==> v <= 2000
    &&& p.tags.len() * 500 <= u32::MAX
}

fn is_listed_opt(list: &Vec<String>, value: &Option<String>) -> (r: bool)
    ensures
        r == listed_opt(list@, opt_text(*value)),
{
    match value {
        Some(v) => is_listed(list, v.as_str()),
        None => false,
    }
}

/// How well a prospect fits the strategy, in basis points.
pub fn compute_strategy_score(prospect: &ProspectSeed, strategy: &StrategyContext) -> (r: u16)
    requires
        prospect_in_range(prospect@),
    ensures
        r as int == strategy_score(prospect@, *strategy),
{
    let mut score: u32 = 2000;
    let fit: u32 = match prospect.fit_score_bps {
        Some(f) => f as u32,
        None => 0,
    };
    score = score + fit * 3 / 10;
    if is_listed_opt(&strategy.target_segments, &prospect.segment) {
        score = score + 1500;
    }
    if is_listed_opt(&strategy.priority_territories, &prospect.territory) {
        score = score + 1000;
    }
    let mut matches: u32 = 0;
    let n = prospect.tags.len();
    let mut i: usize = 0;
    while i < n
        invariant
            n == prospect.tags@.len(),
            i <= n,
            n * 500 <= u32::MAX,
            matches as nat == tag_matches(texts(prospect.tags@.take(i as int)), texts(strategy.focus_tags@)),
            matches <= i,
        decreases n - i,
    {
        proof {
            assert(texts(prospect.tags@.take(i + 1)).drop_last() =~= texts(prospect.tags@.take(i as int)));
        }
        if is_listed(&strategy.focus_tags, prospect.tags[i].as_str()) {
            matches = matches + 1;
        }
        i = i + 1;
    }
    assert(prospect.tags@.take(n as int) =~= prospect.tags@);
    let tag_points = if matches * 500 < 1500 {
        matches * 500
    } else {
        1500
    };
    score = score + tag_points;
    if score < 10000 {
        score as u16
    } else {
        10000
    }
}

/// How ready a prospect is to meet, in basis points.
pub fn compute_readiness_score(prospect: &ProspectSeed) -> (r: u16)
    requires
        prospect_in_range(prospect@),
    ensures
        r as int == readiness_score(prospect@),
{
    let mut score: u32 = 2000;
    let stage: u32 = match &prospect.pipeline_stage {
        Some(s) => {
            let s = s.as_str();
            if str_eq(s, "qualified") {
                3000
            } else if str_eq(s, "discovery") {
                2500
            } else if str_eq(s, "proposal") || str_eq(s, "negotiation") {
                3500
            } else if str_eq(s, "contacted") {
                1500
            } else {
                500
            }
        },
        None => 500,
    };
    score = score + stage;
    let recency: u32 = match prospect.last_contact_days_ago {
        Some(d) => if d <= 3 {
            2000
        } else if d <= 7 {
            1500
        } else if d <= 14 {
            1000
        } else if d <= 30 {
            500
        } else {
            0
        },
        None => 0,
    };
    score = score + recency;
    match prospect.estimated_value_score {
        Some(v) => {
            score = score + v;
        },
        None => {},
    }
    if score < 10000 {
        score as u16
    } else {
        10000
    }
}

/// Why a prospect ranks where it does: its fit score when high (7 000 and
/// up) or moderate (4 000 and up), its target segment, its priority
/// territory, an engaged or advanced pipeline stage, and recent contact
/// (within a week).
pub open spec fn ranking_reasons(p: ProspectModel, s: StrategyContext) -> Seq<Seq<char>> {
    let r0 = Seq::<Seq<char>>::empty();
    let r1 = match p.fit_score_bps {
        Some(f) => if f >= 7000 {
            r0.push("high fit score ("@ + int_decimal(f as int) + " bps)"@)
        } else if f >= 4000 {
            r0.push("moderate fit score ("@ + int_decimal(f as int) + " bps)"@)
        } else {
            r0
        },
        None => r0,
    };
    let r2 = if listed_opt(s.target_segments@, p.segment) {
        r1.push("in target segment '"@ + p.segment.unwrap() + "'"@)
    } else {
        r1
    };
    let r3 = if listed_opt(s.priority_territories@, p.territory) {
        r2.push("in priority territory '"@ + p.territory.unwrap() + "'"@)
    } else {
        r2
    };
    let r4 = match p.pipeline_stage {
        Some(st) => if st == "qualified"@ || st == "discovery"@ {
            r3.push("pipeline stage shows active engagement"@)
        } else if st == "proposal"@ || st == "negotiation"@ {
            r3.push("advanced pipeline stage — close to decision"@)
        } else {
            r3
        },
        None => r3,
    };
    match p.last_contact_days_ago {
        Some(d) => if d <= 7 {
            r4.push("recent contact ("@ + int_decimal(d as int) + " days ago)"@)
        } else {
            r4
        },
        None => r4,
    }
}

/// The reasons joined with `; `, or a baseline note where there are none.
pub open spec fn ranking_reasoning(p: ProspectModel, s: StrategyContext) -> Seq<char> {
    let reasons = ranking_reasons(p, s);
    if reasons.len() == 0 {
        "baseline candidate — no strong signals"@
    } else {
        join(reasons, "; "@)
    }
}

/// Why a prospect ranks where it does, in words.
pub fn build_ranking_reasoning(prospect: &ProspectSeed, strategy: &StrategyContext) -> (r: String)
    ensures
        r@ == ranking_reasoning(prospect@, *strategy),
{
    let mut reasons: Vec<String> = Vec::new();
    match prospect.fit_score_bps {
        Some(f) => {
            if f >= 7000 {
                let n = u16_text(f);
                reasons.push(concat3("high fit score (", n.as_str(), " bps)"));
            } else if f >= 4000 {
                let n = u16_text(f);
                reasons.push(concat3("moderate fit score (", n.as_str(), " bps)"));
            }
        },
        None => {},
    }
    let ghost r1 = texts(reasons@);
    if is_listed_opt(&strategy.target_segments, &prospect.segment) {
        match &prospect.segment {
            Some(seg) => reasons.push(concat3("in target segment '", seg.as_str(), "'")),
            None => {},
        }
    }
    if is_listed_opt(&strategy.priority_territories, &prospect.territory) {
        match &prospect.territory {
            Some(t) => reasons.push(concat3("in priority territory '", t.as_str(), "'")),
            None => {},
        }
    }
    match &prospect.pipeline_stage {
        Some(st) => {
            let st = st.as_str();
            if str_eq(st, "qualified") || str_eq(st, "discovery") {
                reasons.push(owned("pipeline stage shows active engagement"));
            } else if str_eq(st, "proposal") || str_eq(st, "negotiation") {
                reasons.push(owned("advanced pipeline stage — close to decision"));
            }
        },
        None => {},
    }
    match prospect.last_contact_days_ago {
        Some(d) => {
            if d <= 7 {
                let n = u32_text(d);
                reasons.push(concat3("recent contact (", n.as_str(), " days ago)"));
            }
        },
        None => {},
    }
    assert(texts(reasons@) =~= ranking_reasons(prospect@, *strategy));
    if reasons.len() == 0 {
        owned("baseline candidate — no strong signals")
    } else {
        join_texts(&reasons, "; ")
    }
}

/// The alignment signals of a ranked prospect: its fit score, its target
/// segment, its priority territory, and its pipeline stage, where known.
pub open spec fn alignment_signals(p: ProspectModel, s: StrategyContext) -> Seq<Seq<char>> {
    let r0 = Seq::<Seq<char>>::empty();
    let r1 = match p.fit_score_bps {
        Some(f) => r0.push("fit-score:"@ + int_decimal(f as int)),
        None => r0,
    };
    let r2 = if listed_opt(s.target_segments@, p.segment) {
        r1.push("target-segment:"@ + p.segment.unwrap())
    } else {
        r1
    };
    let r3 = if listed_opt(s.priority_territories@, p.territory) {
        r2.push("priority-territory:"@ + p.territory.unwrap())
    } else {
        r2
    };
    match p.pipeline_stage {
        Some(st) => r3.push("pipeline:"@ + st),
        None => r3,
    }
}

/// The alignment signals of a prospect against the strategy.
pub fn collect_alignment_signals(prospect: &ProspectSeed, strategy: &StrategyContext) -> (r: Vec<String>)
    ensures
        texts(r@) == alignment_signals(prospect@, *strategy),
{
    let mut signals: Vec<String> = Vec::new();
    match prospect.fit_score_bps {
        Some(f) => {
            let n = u16_text(f);
            signals.push(concat2("fit-score:", n.as_str()));
        },
        None => {},
    }
    if is_listed_opt(&strategy.target_segments, &prospect.segment) {
        match &prospect.segment {
            Some(seg) => signals.push(concat2("target-segment:", seg.as_str())),
            None => {},
        }
    }
    if is_listed_opt(&strategy.priority_territories, &prospect.territory) {
        match &prospect.territory {
            Some(t) => signals.push(concat2("priority-territory:", t.as_str())),
            None => {},
        }
    }
    match &prospect.pipeline_stage {
        Some(st) => signals.push(concat2("pipeline:", st.as_str())),
        None => {},
    }
    assert(texts(signals@) =~= alignment_signals(prospect@, *strategy));
    signals
}

// ---------------------------------------------------------------- slugs

/// `char::is_ascii_alphanumeric`.
pub open spec fn ascii_alnum(c: char) -> bool {
    ('a' <= c <= 'z') || ('A' <= c <= 'Z') || ('0' <= c <= '9')
}

/// `char::to_ascii_lowercase` on an ASCII letter or digit.
pub open spec fn lower(c: char) -> char {
    if 'A' <= c <= 'Z' {
        ((c as u32) + 32) as char
    } else {
        c
    }
}

/// The slug of `s` before trailing dashes are dropped: lower-case ASCII
/// letters and digits, with one dash for each run of other characters that
/// follows something already written.
pub open spec fn slug_draft(s: Seq<char>) -> Seq<char>
    decreases s.len(),
{
    if s.len() == 0 {
        Seq::empty()
    } else {
        let d = slug_draft(s.drop_last());
        let c = s.last();
        if ascii_alnum(c) {
            d.push(lower(c))
        } else if d.len() > 0 && d.last() != '-' {
            d.push('-')
        } else {
            d
        }
    }
}

/// The slug of a name: its ASCII letters and digits in lower case, other
/// runs of characters as single dashes, no dash at either end.
pub open spec fn slug_of(s: Seq<char>) -> Seq<char> {
    let d = slug_draft(s);
    if d.len() > 0 && d.last() == '-' {
        d.drop_last()
    } else {
        d
    }
}

/// The slug of a name, as alignment fact ids use it.
pub fn slug(value: &str) -> (r: String)
    ensures
        r@ == slug_of(value@),
{
    let mut out = String::new();
    let mut last_was_dash = false;
    let n = value.unicode_len();
    let mut i: usize = 0;
    while i < n
        invariant
            n == value@.len(),
            i <= n,
            out@ == slug_draft(value@.take(i as int)),
            last_was_dash == (out@.len() > 0 && out@.last() == '-'),
        decreases n - i,
    {
        let c = value.get_char(i);
        proof {
            assert(value@.take(i + 1).drop_last() =~= value@.take(i as int));
        }
        if ('a' <= c && c <= 'z') || ('A' <= c && c <= 'Z') || ('0' <= c && c <= '9') {
            let l = if 'A' <= c && c <= 'Z' {
                ((c as u8) + 32) as char
            } else {
                c
            };
            assert(l == lower(c)) by {
                if 'A' <= c && c <= 'Z' {
                    assert((c as u8) as u32 == c as u32);
                }
            }
            push_char(&mut out, l);
            last_was_dash = false;
        } else if out.unicode_len() > 0 && !last_was_dash {
            push_char(&mut out, '-');
            last_was_dash = true;
        }
        i = i + 1;
    }
    assert(value@.take(n as int) =~= value@);
    if last_was_dash {
        let k = out.unicode_len() - 1;
        let t = out.as_str().substring_char(0, k);
        let r = owned(t);
        assert(r@ =~= out@.drop_last());
        r
    } else {
        out
    }
}

// ---------------------------------------------------------------- ranking

/// A prospect with its scores and its place in the ranking.
#[derive(Debug, Clone)]
pub struct RankedCandidate {
    pub rank: u32,
    pub prospect: ProspectSeed,
    pub strategy_score_bps: u16,
    pub readiness_score_bps: u16,
    pub combined_score_bps: u16,
    pub reasoning: String,
}

/// The content of a ranked candidate.
pub struct RankedModel {
    pub rank: u32,
    pub prospect: ProspectModel,
    pub strategy_score_bps: u16,
    pub readiness_score_bps: u16,
    pub combined_score_bps: u16,
    pub reasoning: Seq<char>,
}

impl View for RankedCandidate {
    type V = RankedModel;

    open spec fn view(&self) -> RankedModel {
        RankedModel {
            rank: self.rank,
            prospect: self.prospect@,
            strategy_score_bps: self.strategy_score_bps,
            readiness_score_bps: self.readiness_score_bps,
            combined_score_bps: self.combined_score_bps,
            reasoning: self.reasoning@,
        }
    }
}

/// The content of a sequence of candidates.
pub open spec fn ranked_models(v: Seq<RankedCandidate>) -> Seq<RankedModel> {
    v.map_values(|c: RankedCandidate| c@)
}

/// A prospect scored against the strategy, not yet ranked.
pub open spec fn scored(p: ProspectModel, s: StrategyContext) -> RankedModel {
    let strategy = strategy_score(p, s);
    let readiness = readiness_score(p);
    RankedModel {
        rank: 0,
        prospect: p,
        strategy_score_bps: strategy as u16,
        readiness_score_bps: readiness as u16,
        combined_score_bps: combined_score(strategy, readiness) as u16,
        reasoning: ranking_reasoning(p, s),
    }
}

/// Every prospect scored, in input order.
pub open spec fn scored_all(ps: Seq<ProspectModel>, s: StrategyContext) -> Seq<RankedModel> {
    ps.map_values(|p: ProspectModel| scored(p, s))
}

/// Candidates in order of falling combined score.
pub open spec fn sorted_desc(s: Seq<RankedModel>) -> bool {
    forall|i: int, j: int| 0 <= i < j < s.len() ==> s[i].combined_score_bps >= s[j].combined_score_bps
}

/// `x` placed into `s` after every candidate that scores at least as high.
pub open spec fn insert_desc(s: Seq<RankedModel>, x: RankedModel) -> Seq<RankedModel>
    decreases s.len(),
{
    if s.len() == 0 {
        seq![x]
    } else if s.last().combined_score_bps >= x.combined_score_bps {
        s.push(x)
    } else {
        insert_desc(s.drop_last(), x).push(s.last())
    }
}

/// The candidates by falling combined score; candidates that score the
/// same keep their input order (a stable sort).
pub open spec fn sort_desc(s: Seq<RankedModel>) -> Seq<RankedModel>
    decreases s.len(),
{
    if s.len() == 0 {
        s
    } else {
        insert_desc(sort_desc(s.drop_last()), s.last())
    }
}

/// The candidates numbered 1, 2, ... in order.
pub open spec fn with_ranks(s: Seq<RankedModel>) -> Seq<RankedModel> {
    Seq::new(
        s.len(),
        |i: int|
            RankedModel {
                rank: (i + 1) as u32,
                prospect: s[i].prospect,
                strategy_score_bps: s[i].strategy_score_bps,
                readiness_score_bps: s[i].readiness_score_bps,
                combined_score_bps: s[i].combined_score_bps,
                reasoning: s[i].reasoning,
            },
    )
}

/// The ranking the truth proposes: every prospect scored, sorted by falling
/// combined score (stable), numbered from 1, and cut to twice the number
/// of meetings requested.
pub open spec fn ranking(ps: Seq<ProspectModel>, s: StrategyContext, requested_count: u32) -> Seq<RankedModel> {
    let all = with_ranks(sort_desc(scored_all(ps, s)));
    if all.len() <= 2 * requested_count {
        all
    } else {
        all.take(2 * requested_count)
    }
}

/// Where `x` goes in `s`: after every candidate that scores at least as
/// high.
pub open spec fn insert_pos(s: Seq<RankedModel>, x: RankedModel) -> int
    decreases s.len(),
{
    if s.len() == 0 {
        0
    } else if s.last().combined_score_bps >= x.combined_score_bps {
        s.len() as int
    } else {
        insert_pos(s.drop_last(), x)
    }
}

proof fn lemma_insert_at(s: Seq<RankedModel>, x: RankedModel, pos: int)
    requires
        sorted_desc(s),
        0 <= pos <= s.len(),
        forall|i: int| 0 <= i < pos ==> s[i].combined_score_bps >= x.combined_score_bps,
        pos == s.len() || s[pos].combined_score_bps < x.combined_score_bps,
    ensures
        insert_desc(s, x) == s.insert(pos, x),
        sorted_desc(s.insert(pos, x)),
    decreases s.len(),
{
    if s.len() == 0 {
        assert(s.insert(pos, x) =~= seq![x]);
    } else if s.last().combined_score_bps >= x.combined_score_bps {
        if pos < s.len() {
            assert(s[pos].combined_score_bps >= s.last().combined_score_bps);
        }
        assert(s.insert(pos, x) =~= s.push(x));
    } else {
        let d = s.drop_last();
        assert(pos < s.len()) by {
            if pos == s.len() {
                assert(s[s.len() - 1].combined_score_bps >= x.combined_score_bps);
            }
        }
        lemma_insert_at(d, x, pos);
        assert(d.insert(pos, x).push(s.last()) =~= s.insert(pos, x));
    }
    let t = s.insert(pos, x);
    assert forall|i: int, j: int| 0 <= i < j < t.len() implies t[i].combined_score_bps >= t[j].combined_score_bps by {
        if j < pos {
        } else if j == pos {
        } else if i < pos {
            assert(t[j] == s[j - 1]);
            if j - 1 >= pos {
                if pos < s.len() {
                    assert(s[pos].combined_score_bps >= s[j - 1].combined_score_bps);
                }
            }
        } else if i == pos {
            assert(t[j] == s[j - 1]);
            assert(s[pos].combined_score_bps >= s[j - 1].combined_score_bps);
        } else {
            assert(t[i] == s[i - 1] && t[j] == s[j - 1]);
        }
    }
}

proof fn lemma_insert_pos(s: Seq<RankedModel>, x: RankedModel)
    requires
        sorted_desc(s),
    ensures
        0 <= insert_pos(s, x) <= s.len(),
        forall|i: int| 0 <= i < insert_pos(s, x) ==> s[i].combined_score_bps >= x.combined_score_bps,
        insert_pos(s, x) == s.len() || s[insert_pos(s, x)].combined_score_bps < x.combined_score_bps,
    decreases s.len(),
{
    if s.len() > 0 {
        if s.last().combined_score_bps >= x.combined_score_bps {
            assert forall|i: int| 0 <= i < s.len() implies s[i].combined_score_bps >= x.combined_score_bps by {
                if i < s.len() - 1 {
                    assert(s[i].combined_score_bps >= s[s.len() - 1].combined_score_bps);
                }
            }
        } else {
            let d = s.drop_last();
            assert(sorted_desc(d)) by {
                assert forall|i: int, j: int| 0 <= i < j < d.len() implies d[i].combined_score_bps >= d[j].combined_score_bps by {
                    assert(d[i] == s[i] && d[j] == s[j]);
                }
            }
            lemma_insert_pos(d, x);
            assert forall|i: int| 0 <= i < insert_pos(s, x) implies s[i].combined_score_bps >= x.combined_score_bps by {
                assert(s[i] == d[i]);
            }
        }
    }
}

proof fn lemma_insert_desc_multiset(s: Seq<RankedModel>, x: RankedModel)
    ensures
        insert_desc(s, x).to_multiset() == s.to_multiset().insert(x),
    decreases s.len(),
{
    broadcast use vstd::seq_lib::to_multiset_build;
    broadcast use vstd::multiset::group_multiset_axioms;
    if s.len() == 0 {
        assert(seq![x] =~= s.push(x));
    } else if s.last().combined_score_bps >= x.combined_score_bps {
    } else {
        let d = s.drop_last();
        lemma_insert_desc_multiset(d, x);
        assert(d.push(s.last()) =~= s);
        assert(insert_desc(s, x).to_multiset() =~= s.to_multiset().insert(x));
    }
}

/// The ranking sort keeps every candidate exactly once and puts them in
/// order of falling combined score.
pub proof fn law_ranking_sort_is_ordered_permutation(s: Seq<RankedModel>)
    ensures
        sorted_desc(sort_desc(s)),
        sort_desc(s).to_multiset() == s.to_multiset(),
        sort_desc(s).len() == s.len(),
    decreases s.len(),
{
    broadcast use vstd::seq_lib::to_multiset_build;
    broadcast use vstd::seq_lib::to_multiset_len;
    if s.len() > 0 {
        let d = s.drop_last();
        law_ranking_sort_is_ordered_permutation(d);
        let t = sort_desc(d);
        lemma_insert_pos(t, s.last());
        lemma_insert_at(t, s.last(), insert_pos(t, s.last()));
        lemma_insert_desc_multiset(t, s.last());
        assert(d.push(s.last()) =~= s);
        assert(sort_desc(s).to_multiset() == s.to_multiset());
        assert(sort_desc(s).len() == s.len()) by {
            vstd::seq_lib::to_multiset_len(sort_desc(s));
            vstd::seq_lib::to_multiset_len(s);
        }
    }
}

impl RankedCandidate {
    /// A copy with the same content.
    pub fn copy(&self) -> (r: Self)
        ensures
            r@ == self@,
    {
        RankedCandidate {
            rank: self.rank,
            prospect: self.prospect.copy(),
            strategy_score_bps: self.strategy_score_bps,
            readiness_score_bps: self.readiness_score_bps,
            combined_score_bps: self.combined_score_bps,
            reasoning: self.reasoning.clone(),
        }
    }
}

/// A prospect scored against the strategy.
pub fn score_candidate(prospect: &ProspectSeed, strategy: &StrategyContext) -> (r: RankedCandidate)
    requires
        prospect_in_range(prospect@),
    ensures
        r@ == scored(prospect@, *strategy),
        r.combined_score_bps as int == (6 * r.strategy_score_bps as int + 4 * r.readiness_score_bps as int) / 10,
{
    let strategy_score = compute_strategy_score(prospect, strategy);
    let readiness = compute_readiness_score(prospect);
    let combined = ((strategy_score as u32) * 6 + (readiness as u32) * 4) / 10;
    RankedCandidate {
        rank: 0,
        prospect: prospect.copy(),
        strategy_score_bps: strategy_score,
        readiness_score_bps: readiness,
        combined_score_bps: combined as u16,
        reasoning: build_ranking_reasoning(prospect, strategy),
    }
}

/// The combined score of a scored prospect is 60% of its strategy score
/// plus 40% of its readiness score, rounded down; both scores lie between
/// 2 000 and 10 000 basis points.
pub proof fn law_combined_score_weights(p: ProspectModel, s: StrategyContext)
    ensures
        scored(p, s).combined_score_bps as int == (6 * scored(p, s).strategy_score_bps as int + 4
            * scored(p, s).readiness_score_bps as int) / 10,
        2000 <= scored(p, s).strategy_score_bps <= 10000,
        2000 <= scored(p, s).readiness_score_bps <= 10000,
{
    lemma_scores_in_range(p, s);
}

/// The strategy and readiness scores lie between 2 000 and 10 000.
proof fn lemma_scores_in_range(p: ProspectModel, s: StrategyContext)
    ensures
        2000 <= strategy_score(p, s) <= 10000,
        2000 <= readiness_score(p) <= 10000,
{
}

/// Ranks the prospects for the strategy: scored, sorted by falling combined
/// score (ties keep their input order), numbered from 1, and cut to twice
/// the number of meetings requested.
pub fn rank_candidates(prospects: &Vec<ProspectSeed>, strategy: &StrategyContext, requested_count: u32) -> (r: Vec<RankedCandidate>)
    requires
        forall|i: int| 0 <= i < prospects@.len() ==> prospect_in_range(#[trigger] prospects@[i]@),
        2 * requested_count <= usize::MAX,
    ensures
        ranked_models(r@) == ranking(prospects@.map_values(|p: ProspectSeed| p@), *strategy, requested_count),
{
    let ghost ps = prospects@.map_values(|p: ProspectSeed| p@);
    let mut sorted: Vec<RankedCandidate> = Vec::new();
    let n = prospects.len();
    let mut i: usize = 0;
    while i < n
        invariant
            n == prospects@.len(),
            i <= n,
            ps == prospects@.map_values(|p: ProspectSeed| p@),
            forall|k: int| 0 <= k < prospects@.len() ==> prospect_in_range(#[trigger] prospects@[k]@),
            ranked_models(sorted@) == sort_desc(scored_all(ps.take(i as int), *strategy)),
            sorted_desc(ranked_models(sorted@)),
        decreases n - i,
    {
        let c = score_candidate(&prospects[i], strategy);
        let ghost before = ranked_models(sorted@);
        let mut pos: usize = 0;
        while pos < sorted.len() && sorted[pos].combined_score_bps >= c.combined_score_bps
            invariant
                pos <= sorted@.len(),
                before == ranked_models(sorted@),
                forall|k: int| 0 <= k < pos ==> before[k].combined_score_bps >= c.combined_score_bps,
            decreases sorted@.len() - pos,
        {
            pos = pos + 1;
        }
        proof {
            lemma_insert_at(before, c@, pos as int);
            let all = scored_all(ps.take(i + 1), *strategy);
            assert(all.drop_last() =~= scored_all(ps.take(i as int), *strategy));
            assert(all.last() == c@);
        }
        sorted.insert(pos, c);
        assert(ranked_models(sorted@) =~= before.insert(pos as int, c@));
        i = i + 1;
    }
    assert(ps.take(n as int) =~= ps);
    let ghost all = ranked_models(sorted@);
    let limit = 2 * (requested_count as usize);
    let mut out: Vec<RankedCandidate> = Vec::new();
    let mut k: usize = 0;
    while k < sorted.len() && k < limit
        invariant
            k <= sorted@.len(),
            k <= limit,
            limit == 2 * requested_count,
            all == ranked_models(sorted@),
            ranked_models(out@) == with_ranks(all).take(k as int),
        decreases sorted@.len() - k,
    {
        let src = sorted[k].copy();
        let c = RankedCandidate {
            rank: #[verifier::truncate] ((k + 1) as u32),
            prospect: src.prospect,
            strategy_score_bps: src.strategy_score_bps,
            readiness_score_bps: src.readiness_score_bps,
            combined_score_bps: src.combined_score_bps,
            reasoning: src.reasoning,
        };
        assert(c@ == with_ranks(all)[k as int]);
        let ghost prev = out@;
        out.push(c);
        assert(ranked_models(out@) =~= ranked_models(prev).push(c@));
        assert(with_ranks(all).take(k + 1) =~= with_ranks(all).take(k as int).push(with_ranks(all)[k as int]));
        k = k + 1;
    }
    proof {
        let w = with_ranks(sort_desc(scored_all(ps, *strategy)));
        assert(w == with_ranks(all));
        if k == sorted@.len() {
            assert(w.take(k as int) =~= w);
        }
    }
    assert(ranked_models(out@) =~= ranking(ps, *strategy, requested_count));
    out
}

/// The ranking is in order of falling combined score, numbered 1, 2, ...,
/// and holds every prospect up to twice the number of meetings requested.
pub proof fn law_ranking_is_ordered(ps: Seq<ProspectModel>, s: StrategyContext, requested_count: u32)
    ensures
        sorted_desc(ranking(ps, s, requested_count)),
        forall|i: int| 0 <= i < ranking(ps, s, requested_count).len()
            ==> #[trigger] ranking(ps, s, requested_count)[i].rank == (i + 1) as u32,
        ranking(ps, s, requested_count).len() == min_int(ps.len() as int, 2 * requested_count),
{
    let all = scored_all(ps, s);
    law_ranking_sort_is_ordered_permutation(all);
    let w = with_ranks(sort_desc(all));
    assert(sorted_desc(w));
}

// ---------------------------------------------------------------- slate

/// How much a calendar slot is wanted.
#[derive(Debug, Clone, Copy, PartialEq, Eq, Structural)]
pub enum SlotPreference {
    Preferred,
    Available,
    LastResort,
}

/// A slot in the calendar.
#[derive(Debug, Clone)]
pub struct CalendarSlot {
    pub start: String,
    pub end: String,
    pub preference: SlotPreference,
}

impl CalendarSlot {
    /// A copy with the same content.
    pub fn copy(&self) -> (r: Self)
        ensures
            r == *self,
    {
        CalendarSlot { start: self.start.clone(), end: self.end.clone(), preference: self.preference }
    }
}

/// A proposed meeting.
#[derive(Debug, Clone)]
pub struct MeetingProposal {
    pub rank: u32,
    pub prospect_name: String,
    pub organization_id: Option<u128>,
    pub proposed_slot: Option<CalendarSlot>,
    pub strategy_alignment: String,
    pub readiness_signal: String,
    pub suggested_agenda: String,
    pub combined_score_bps: u16,
}

/// The content of a proposed meeting.
pub struct ProposalModel {
    pub rank: u32,
    pub prospect_name: Seq<char>,
    pub organization_id: Option<u128>,
    pub proposed_slot: Option<CalendarSlot>,
    pub strategy_alignment: Seq<char>,
    pub readiness_signal: Seq<char>,
    pub suggested_agenda: Seq<char>,
    pub combined_score_bps: u16,
}

impl View for MeetingProposal {
    type V = ProposalModel;

    open spec fn view(&self) -> ProposalModel {
        ProposalModel {
            rank: self.rank,
            prospect_name: self.prospect_name@,
            organization_id: self.organization_id,
            proposed_slot: self.proposed_slot,
            strategy_alignment: self.strategy_alignment@,
            readiness_signal: self.readiness_signal@,
            suggested_agenda: self.suggested_agenda@,
            combined_score_bps: self.combined_score_bps,
        }
    }
}

/// A slate of proposed meetings for a person to confirm.
#[derive(Debug, Clone)]
pub struct MeetingSlatePayload {
    pub intent: String,
    pub window: String,
    pub proposals: Vec<MeetingProposal>,
    pub candidates_considered: u32,
    pub candidates_ranked: u32,
}

/// The text, or `default` where there is none.
pub open spec fn or_text(t: Option<Seq<char>>, default: Seq<char>) -> Seq<char> {
    match t {
        Some(v) => v,
        None => default,
    }
}

/// `readiness {score} bps (stage: {stage}, last contact: {days} days ago)`,
/// with `unknown` for no stage and 0 for no contact.
pub open spec fn readiness_signal(c: RankedModel) -> Seq<char> {
    "readiness "@ + int_decimal(c.readiness_score_bps as int) + " bps (stage: "@ + or_text(
        c.prospect.pipeline_stage,
        "unknown"@,
    ) + ", last contact: "@ + int_decimal(
        match c.prospect.last_contact_days_ago {
            Some(d) => d as int,
            None => 0,
        },
    ) + " days ago)"@
}

/// `Explore {segment} fit for {name}`, with `general` for no segment.
pub open spec fn suggested_agenda(c: RankedModel) -> Seq<char> {
    "Explore "@ + or_text(c.prospect.segment, "general"@) + " fit for "@ + c.prospect.name
}

/// The meeting proposed for the candidate at `index`: ranked `index + 1`,
/// in the calendar slot at the same index where there is one.
pub open spec fn proposal_for(c: RankedModel, index: int, slots: Seq<CalendarSlot>) -> ProposalModel {
    ProposalModel {
        rank: (index + 1) as u32,
        prospect_name: c.prospect.name,
        organization_id: c.prospect.organization_id,
        proposed_slot: if index < slots.len() {
            Some(slots[index])
        } else {
            None
        },
        strategy_alignment: c.reasoning,
        readiness_signal: readiness_signal(c),
        suggested_agenda: suggested_agenda(c),
        combined_score_bps: c.combined_score_bps,
    }
}

/// The meetings proposed for the first `n` candidates.
pub open spec fn proposals_for(cs: Seq<RankedModel>, slots: Seq<CalendarSlot>, n: int) -> Seq<ProposalModel> {
    Seq::new(n as nat, |i: int| proposal_for(cs[i], i, slots))
}

/// How many meetings are proposed: the requested number, or every
/// candidate where there are fewer.
pub open spec fn slate_size(candidates: int, requested_count: u32) -> int {
    min_int(candidates, requested_count as int)
}

fn proposal_of(c: &RankedCandidate, index: usize, slots: &Vec<CalendarSlot>) -> (r: MeetingProposal)
    requires
        index < usize::MAX,
    ensures
        r@ == proposal_for(c@, index as int, slots@),
{
    let stage = match &c.prospect.pipeline_stage {
        Some(st) => st.clone(),
        None => owned("unknown"),
    };
    let days = match c.prospect.last_contact_days_ago {
        Some(d) => d,
        None => 0,
    };
    let score = u16_text(c.readiness_score_bps);
    let days_text = u32_text(days);
    let a = concat3("readiness ", score.as_str(), " bps (stage: ");
    let b = concat3(a.as_str(), stage.as_str(), ", last contact: ");
    let signal = concat3(b.as_str(), days_text.as_str(), " days ago)");
    let segment = match &c.prospect.segment {
        Some(sg) => sg.clone(),
        None => owned("general"),
    };
    let head = concat3("Explore ", segment.as_str(), " fit for ");
    let agenda = concat2(head.as_str(), c.prospect.name.as_str());
    MeetingProposal {
        rank: #[verifier::truncate] ((index + 1) as u32),
        prospect_name: c.prospect.name.clone(),
        organization_id: c.prospect.organization_id,
        proposed_slot: if index < slots.len() {
            Some(slots[index].copy())
        } else {
            None
        },
        strategy_alignment: c.reasoning.clone(),
        readiness_signal: signal,
        suggested_agenda: agenda,
        combined_score_bps: c.combined_score_bps,
    }
}

/// Proposes the slate: one meeting for each of the first
/// `requested_count` candidates in ranking order, each in the calendar slot
/// at its index where there is one, for the window `{start} to {end}`.
pub fn propose_slate(
    intent: &str,
    window_start: &str,
    window_end: &str,
    requested_count: u32,
    candidates: &Vec<RankedCandidate>,
    slots: &Vec<CalendarSlot>,
) -> (r: MeetingSlatePayload)
    ensures
        r.intent@ == intent@,
        r.window@ == window_start@ + " to "@ + window_end@,
        r.proposals@.map_values(|p: MeetingProposal| p@) == proposals_for(
            ranked_models(candidates@),
            slots@,
            slate_size(candidates@.len() as int, requested_count),
        ),
        r.candidates_considered == #[verifier::truncate] (candidates@.len() as u32),
        r.candidates_ranked == slate_size(candidates@.len() as int, requested_count) as u32,
{
    let n = if (requested_count as usize) < candidates.len() {
        requested_count as usize
    } else {
        candidates.len()
    };
    let ghost cs = ranked_models(candidates@);
    let mut proposals: Vec<MeetingProposal> = Vec::new();
    let mut i: usize = 0;
    while i < n
        invariant
            n <= candidates@.len(),
            i <= n,
            cs == ranked_models(candidates@),
            proposals@.map_values(|p: MeetingProposal| p@) == proposals_for(cs, slots@, i as int),
        decreases n - i,
    {
        let p = proposal_of(&candidates[i], i, slots);
        let ghost prev = proposals@;
        assert(cs[i as int] == candidates@[i as int]@);
        proposals.push(p);
        assert(proposals@.map_values(|p: MeetingProposal| p@) =~= prev.map_values(|p: MeetingProposal| p@).push(p@));
        assert(proposals@.map_values(|p: MeetingProposal| p@) =~= proposals_for(cs, slots@, i + 1));
        i = i + 1;
    }
    MeetingSlatePayload {
        intent: owned(intent),
        window: concat3(window_start, " to ", window_end),
        candidates_considered: #[verifier::truncate] (candidates.len() as u32),
        candidates_ranked: #[verifier::truncate] (proposals.len() as u32),
        proposals,
    }
}

/// The statement of the fact that records a slate: `Meeting slate
/// proposed: {n} meetings from {considered} candidates for '{intent}'`.
pub open spec fn slate_statement(proposals: int, considered: u32, intent: Seq<char>) -> Seq<char> {
    "Meeting slate proposed: "@ + int_decimal(proposals) + " meetings from "@ + int_decimal(considered as int)
        + " candidates for '"@ + intent + "'"@
}

/// The statement that records a slate.
pub fn slate_fact_statement(slate: &MeetingSlatePayload) -> (r: String)
    ensures
        r@ == slate_statement(slate.proposals@.len() as int, slate.candidates_considered, slate.intent@),
{
    let n = crate::text::usize_text(slate.proposals.len());
    let c = u32_text(slate.candidates_considered);
    let a = concat3("Meeting slate proposed: ", n.as_str(), " meetings from ");
    let b = concat3(a.as_str(), c.as_str(), " candidates for '");
    concat3(b.as_str(), slate.intent.as_str(), "'")
}

/// The statement of the fact that records why a proposal aligns:
/// `Strategy alignment for {name}: {alignment} (combined score {score} bps)`.
pub open spec fn alignment_statement(p: ProposalModel) -> Seq<char> {
    "Strategy alignment for "@ + p.prospect_name + ": "@ + p.strategy_alignment + " (combined score "@
        + int_decimal(p.combined_score_bps as int) + " bps)"@
}

/// The statement that records why a proposal aligns with the strategy.
pub fn alignment_fact_statement(proposal: &MeetingProposal) -> (r: String)
    ensures
        r@ == alignment_statement(proposal@),
{
    let score = u16_text(proposal.combined_score_bps);
    let a = concat3("Strategy alignment for ", proposal.prospect_name.as_str(), ": ");
    let b = concat3(a.as_str(), proposal.strategy_alignment.as_str(), " (combined score ");
    concat3(b.as_str(), score.as_str(), " bps)")
}

/// The subject of the activity that records a proposed meeting:
/// `Proposed meeting: {name} (rank #{rank})`.
pub fn proposed_meeting_subject(proposal: &MeetingProposal) -> (r: String)
    ensures
        r@ == "Proposed meeting: "@ + proposal.prospect_name@ + " (rank #"@ + int_decimal(proposal.rank as int) + ")"@,
{
    let rank = u32_text(proposal.rank);
    let a = concat3("Proposed meeting: ", proposal.prospect_name.as_str(), " (rank #");
    concat3(a.as_str(), rank.as_str(), ")")
}

} // verus!
