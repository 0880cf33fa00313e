//! match-renewal-context: retrieves renewal signals from an account's
//! context, turns them into a negotiation brief, and recommends renewal
//! terms, asking for approval where the account shows competitive pressure
//! or incidents.
use std::collections::HashMap;
use vstd::prelude::*;
use crate::ids::parsed_uuid;
use crate::inputs::{input_model, present};
use crate::runtime::Status;
use crate::text::{concat2, concat3, contains_text, int_decimal, owned, str_contains, texts, trim, trim_str, usize_text};
use vstd::string::StringSliceAdditionalSpecFns;
use vstd::utf8::{decode_utf8, encode_utf8, encode_utf8_decode_utf8, is_char_boundary};
use crate::truths::common::{invalid_argument, invalid_uuid_message, missing_input_message, optional_uuid, required_uuid};

verus! {

/// What the truth is run with.
#[derive(Debug, Clone)]
pub struct MatchRenewalContextInput {
    pub organization_id: u128,
    pub opportunity_id: Option<u128>,
}

impl MatchRenewalContextInput {
    /// Reads the input: the organization id (a UUID) is required; an
    /// opportunity id, when given, must be a UUID.
    pub fn from_map(inputs: &HashMap<String, String>) -> (r: Result<Self, Status>)
        ensures
            ({
                let m = input_model(*inputs);
                match present(m, "organization_id"@) {
                    None => r matches Err(s) && invalid_argument(s, missing_input_message("organization_id"@)),
                    Some(t) => match parsed_uuid(t) {
                        None => r matches Err(s) && invalid_argument(s, invalid_uuid_message("organization_id"@, t)),
                        Some(id) => match present(m, "opportunity_id"@) {
                            None => r matches Ok(i) && i.organization_id == id && i.opportunity_id is None,
                            Some(o) => match parsed_uuid(o) {
                                None => r matches Err(s) && invalid_argument(s, invalid_uuid_message("opportunity_id"@, o)),
                                Some(oid) => r matches Ok(i) && i.organization_id == id && i.opportunity_id == Some(oid),
                            },
                        },
                    },
                }
            }),
    {
        let organization_id = required_uuid(inputs, "organization_id")?;
        let opportunity_id = optional_uuid(inputs, "opportunity_id")?;
        Ok(MatchRenewalContextInput { organization_id, opportunity_id })
    }
}

/// The signals a renewal looks for, each with the query that retrieves it:
/// competitive evaluation, support incidents, expansion interest and
/// stakeholder change.
pub fn renewal_signal_queries() -> (r: Vec<(&'static str, &'static str)>)
    ensures
        r@.len() == 4,
        r@[0].0@ == "competitive-evaluation"@ && r@[0].1@ == "competitive evaluation competitor dissatisfaction"@,
        r@[1].0@ == "support-incident"@ && r@[1].1@ == "incident outage severity escalation"@,
        r@[2].0@ == "expansion-interest"@ && r@[2].1@ == "expansion growth upgrade usage increase"@,
        r@[3].0@ == "stakeholder-change"@ && r@[3].1@ == "stakeholder change executive sponsor champion"@,
{
    let mut v: Vec<(&'static str, &'static str)> = Vec::new();
    v.push(("competitive-evaluation", "competitive evaluation competitor dissatisfaction"));
    v.push(("support-incident", "incident outage severity escalation"));
    v.push(("expansion-interest", "expansion growth upgrade usage increase"));
    v.push(("stakeholder-change", "stakeholder change executive sponsor champion"));
    v
}

/// A retrieved renewal signal, as the brief reads it.
#[derive(Debug, Clone)]
pub struct RenewalSignal {
    pub signal_id: String,
    pub title: String,
    pub summary: String,
}

/// Whether a signal is a risk: competitive, an incident, or a stakeholder
/// change.
pub open spec fn is_risk(id: Seq<char>) -> bool {
    contains_text(id, "competitive"@) || contains_text(id, "incident"@) || contains_text(id, "stakeholder"@)
}

/// The risks among the first `n` signals, as `{id}: {summary}`.
pub open spec fn risks_of(s: Seq<RenewalSignal>, n: int) -> Seq<Seq<char>>
    decreases n,
{
    if n <= 0 {
        Seq::empty()
    } else if is_risk(s[n - 1].signal_id@) {
        risks_of(s, n - 1).push(s[n - 1].signal_id@ + ": "@ + s[n - 1].summary@)
    } else {
        risks_of(s, n - 1)
    }
}

/// The expansion opportunities among the first `n` signals, by summary.
pub open spec fn opportunities_of(s: Seq<RenewalSignal>, n: int) -> Seq<Seq<char>>
    decreases n,
{
    if n <= 0 {
        Seq::empty()
    } else if contains_text(s[n - 1].signal_id@, "expansion"@) {
        opportunities_of(s, n - 1).push(s[n - 1].summary@)
    } else {
        opportunities_of(s, n - 1)
    }
}

/// A negotiation brief.
#[derive(Debug, Clone)]
pub struct RenewalBrief {
    pub summary: String,
    pub strengths: Vec<String>,
    pub risks: Vec<String>,
    pub opportunities: Vec<String>,
    pub talking_points: Vec<String>,
    pub confidence_bps: u16,
}

/// The confidence of a brief: 6 500 plus 700 per signal up to four signals,
/// at most 9 200.
pub open spec fn brief_confidence(signals: int) -> int {
    let c = 6500 + (if signals < 4 {
        signals
    } else {
        4
    }) * 700;
    if c < 9200 {
        c
    } else {
        9200
    }
}

/// Builds the negotiation brief from the retrieved signals: the risks
/// (competitive, incident, stakeholder signals), the expansion
/// opportunities, one strength depending on whether risks were found, one
/// talking point per signal, a summary counting the signals, and the
/// confidence. No brief without signals.
pub fn negotiation_brief(signals: &Vec<RenewalSignal>) -> (r: Option<RenewalBrief>)
    ensures
        signals@.len() == 0 <==> r is None,
        r matches Some(b) ==> {
            &&& texts(b.risks@) == risks_of(signals@, signals@.len() as int)
            &&& texts(b.opportunities@) == opportunities_of(signals@, signals@.len() as int)
            &&& b.strengths@.len() == 1
            &&& b.strengths@[0]@ == if b.risks@.len() == 0 {
                "Account context is stable with no major negative retrieval signals."@
            } else {
                "Retrieved account context is dense enough to support a guided renewal discussion."@
            }
            &&& b.talking_points@.len() == signals@.len()
            &&& forall|i: int| 0 <= i < signals@.len() ==> (#[trigger] b.talking_points@[i])@ == "Discuss "@
                + signals@[i].signal_id@ + " with evidence from "@ + signals@[i].title@
            &&& b.summary@ == "Renewal brief built from "@ + int_decimal(signals@.len() as int) + " retrieved signals."@
            &&& b.confidence_bps as int == brief_confidence(signals@.len() as int)
        },
{
    let n = signals.len();
    if n == 0 {
        return None;
    }
    let mut risks: Vec<String> = Vec::new();
    let mut opportunities: Vec<String> = Vec::new();
    let mut talking_points: Vec<String> = Vec::new();
    let mut i: usize = 0;
    while i < n
        invariant
            n == signals@.len(),
            i <= n,
            texts(risks@) == risks_of(signals@, i as int),
            texts(opportunities@) == opportunities_of(signals@, i as int),
            talking_points@.len() == i,
            forall|j: int| 0 <= j < i ==> (#[trigger] talking_points@[j])@ == "Discuss "@ + signals@[j].signal_id@
                + " with evidence from "@ + signals@[j].title@,
        decreases n - i,
    {
        let s = &signals[i];
        let id = s.signal_id.as_str();
        let ghost r0 = risks@;
        let ghost o0 = opportunities@;
        if str_contains(id, "competitive") || str_contains(id, "incident") || str_contains(id, "stakeholder") {
            risks.push(concat3(id, ": ", s.summary.as_str()));
            assert(texts(risks@) =~= texts(r0).push(texts(risks@).last()));
        }
        if str_contains(id, "expansion") {
            opportunities.push(s.summary.clone());
            assert(texts(opportunities@) =~= texts(o0).push(s.summary@));
        }
        let head = concat3("Discuss ", id, " with evidence from ");
        talking_points.push(concat2(head.as_str(), s.title.as_str()));
        i = i + 1;
    }
    let strengths = if risks.len() == 0 {
        vec![owned("Account context is stable with no major negative retrieval signals.")]
    } else {
        vec![owned("Retrieved account context is dense enough to support a guided renewal discussion.")]
    };
    let count = usize_text(n);
    let summary = concat3("Renewal brief built from ", count.as_str(), " retrieved signals.");
    let capped: u16 = if n < 4 {
        n as u16
    } else {
        4
    };
    let c = 6500 + capped * 700;
    let confidence_bps = if c < 9200 {
        c
    } else {
        9200
    };
    Some(RenewalBrief { summary, strengths, risks, opportunities, talking_points, confidence_bps })
}

/// How many bytes a shortened summary keeps before its `...`.
pub open spec fn summary_cut(max_len: usize) -> int {
    if max_len >= 3 {
        max_len - 3
    } else {
        0
    }
}

/// Whether `content`, trimmed, can be cut for a summary of `max_len`
/// bytes: it fits, or its first `max_len - 3` bytes end on a character.
pub open spec fn summary_cuttable(content: Seq<char>, max_len: usize) -> bool {
    let bytes = encode_utf8(trim(content));
    bytes.len() > max_len ==> is_char_boundary(bytes, summary_cut(max_len))
}

/// The summary of a text: the text trimmed when it fits in `max_len`
/// bytes, otherwise its first `max_len - 3` bytes followed by `...`.
pub open spec fn summary_of(content: Seq<char>, max_len: usize) -> Seq<char> {
    let t = trim(content);
    let bytes = encode_utf8(t);
    if bytes.len() <= max_len {
        t
    } else {
        decode_utf8(bytes.subrange(0, summary_cut(max_len))) + "..."@
    }
}

/// Shortens a retrieved text to at most `max_len` bytes.
pub fn summarize(content: &str, max_len: usize) -> (r: String)
    requires
        summary_cuttable(content@, max_len),
    ensures
        r@ == summary_of(content@, max_len),
{
    let t = trim_str(content);
    let byte_count = t.as_bytes().len();
    if byte_count <= max_len {
        owned(t)
    } else {
        let cut: usize = if max_len >= 3 {
            max_len - 3
        } else {
            0
        };
        let (head, _rest) = t.split_at(cut);
        proof {
            encode_utf8_decode_utf8(head@);
        }
        concat2(head, "...")
    }
}

/// The signal a retrieved entry gives: its id, the entry's title, and the
/// entry's content shortened to 180 bytes.
pub fn signal_from_entry(signal_id: &str, title: &str, content: &str) -> (r: RenewalSignal)
    requires
        summary_cuttable(content@, 180),
    ensures
        r.signal_id@ == signal_id@,
        r.title@ == title@,
        r.summary@ == summary_of(content@, 180),
{
    RenewalSignal { signal_id: owned(signal_id), title: owned(title), summary: summarize(content, 180) }
}

/// Whether any risk names competition or an incident.
pub open spec fn approval_needed(risks: Seq<Seq<char>>) -> bool {
    exists|i: int| 0 <= i < risks.len() && (contains_text(#[trigger] risks[i], "competitive"@) || contains_text(risks[i], "incident"@))
}

/// The recommended renewal terms.
#[derive(Debug, Clone)]
pub struct RenewalTerms {
    pub recommendation: String,
    pub rationale: String,
    pub approval_required: bool,
    pub confidence_bps: u16,
}

/// Recommends terms from a brief: expansion-oriented where there are
/// opportunities and nothing needs approval; standard with mitigation and
/// approval where a risk names competition or an incident; standard
/// otherwise. The rationale is the brief's summary.
pub fn renewal_terms(brief: &RenewalBrief) -> (r: RenewalTerms)
    ensures
        r.approval_required == approval_needed(texts(brief.risks@)),
        r.recommendation@ == if brief.opportunities@.len() > 0 && !r.approval_required {
            "propose expansion-oriented renewal"@
        } else if r.approval_required {
            "prepare standard renewal with explicit mitigation and approval"@
        } else {
            "propose standard renewal"@
        },
        r.rationale@ == brief.summary@,
        r.confidence_bps == if r.approval_required {
            6200u16
        } else {
            8100u16
        },
{
    let mut approval = false;
    let n = brief.risks.len();
    let mut i: usize = 0;
    while i < n
        invariant
            n == brief.risks@.len(),
            i <= n,
            approval == exists|j: int| 0 <= j < i && (contains_text(#[trigger] texts(brief.risks@)[j], "competitive"@)
                || contains_text(texts(brief.risks@)[j], "incident"@)),
        decreases n - i,
    {
        let risk = brief.risks[i].as_str();
        assert(texts(brief.risks@)[i as int] == brief.risks@[i as int]@);
        if str_contains(risk, "competitive") || str_contains(risk, "incident") {
            approval = true;
        }
        i = i + 1;
    }
    let recommendation = if brief.opportunities.len() > 0 && !approval {
        owned("propose expansion-oriented renewal")
    } else if approval {
        owned("prepare standard renewal with explicit mitigation and approval")
    } else {
        owned("propose standard renewal")
    };
    RenewalTerms {
        recommendation,
        rationale: brief.summary.clone(),
        approval_required: approval,
        confidence_bps: if approval {
            6200
        } else {
            8100
        },
    }
}

/// The statement recorded for a signal: `Renewal signal {id} from {title}:
/// {summary}`.
pub fn signal_statement(signal: &RenewalSignal) -> (r: String)
    ensures
        r@ == "Renewal signal "@ + signal.signal_id@ + " from "@ + signal.title@ + ": "@ + signal.summary@,
{
    let a = concat3("Renewal signal ", signal.signal_id.as_str(), " from ");
    let b = concat3(a.as_str(), signal.title.as_str(), ": ");
    concat2(b.as_str(), signal.summary.as_str())
}

/// The statement recorded for the terms: `Renewal terms recommendation:
/// {recommendation} ({rationale})`.
pub fn terms_statement(terms: &RenewalTerms) -> (r: String)
    ensures
        r@ == "Renewal terms recommendation: "@ + terms.recommendation@ + " ("@ + terms.rationale@ + ")"@,
{
    let a = concat3("Renewal terms recommendation: ", terms.recommendation.as_str(), " (");
    concat3(a.as_str(), terms.rationale.as_str(), ")")
}

} // verus!
