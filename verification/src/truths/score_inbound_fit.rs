//! score-inbound-fit: scores how well an inbound visitor fits, from the
//! behaviour in its usage events, and records the score on the prospect's
//! organization. The score itself is computed in floating point outside
//! this library; here are the inputs, the label, the event table the
//! feature extraction reads, and the statements the run records.
use std::collections::HashMap;
use vstd::prelude::*;
use crate::ids::parsed_uuid;
use crate::inputs::{input_model, present};
use crate::runtime::{Status, StatusCode};
use crate::text::{concat2, concat3, i64_text, int_decimal, opt_text, owned, push_text, u16_text};
use crate::truths::common::{
    invalid_argument, invalid_uuid_message, missing_input_message, optional_input, optional_uuid, required_input,
};

verus! {

/// What the truth is run with.
#[derive(Debug, Clone)]
pub struct ScoreInboundFitInput {
    pub organization_name: String,
    pub visitor_id: String,
    pub usage_events_json: String,
    pub organization_id: Option<u128>,
    pub organization_external_key: Option<String>,
    pub website: Option<String>,
    pub industry: Option<String>,
}

/// The message of the first required input that is missing, in the order
/// organization name, visitor id, usage events, then of an organization id
/// that is not a UUID; none where the input reads.
pub open spec fn score_input_error(m: Map<Seq<char>, Seq<char>>) -> Option<Seq<char>> {
    if present(m, "organization_name"@) is None {
        Some(missing_input_message("organization_name"@))
    } else if present(m, "visitor_id"@) is None {
        Some(missing_input_message("visitor_id"@))
    } else if present(m, "usage_events_json"@) is None {
        Some(missing_input_message("usage_events_json"@))
    } else if present(m, "organization_id"@) is Some && parsed_uuid(present(m, "organization_id"@).unwrap()) is None {
        Some(invalid_uuid_message("organization_id"@, present(m, "organization_id"@).unwrap()))
    } else {
        None
    }
}

impl ScoreInboundFitInput {
    /// Reads the input: the organization name, visitor id and usage events
    /// are required; an organization id, when given, must be a UUID; the
    /// rest is optional.
    pub fn from_map(inputs: &HashMap<String, String>) -> (r: Result<Self, Status>)
        ensures
            match score_input_error(input_model(*inputs)) {
                Some(msg) => r matches Err(s) && invalid_argument(s, msg),
                None => r matches Ok(i) && {
                    let m = input_model(*inputs);
                    &&& Some(i.organization_name@) == present(m, "organization_name"@)
                    &&& Some(i.visitor_id@) == present(m, "visitor_id"@)
                    &&& Some(i.usage_events_json@) == present(m, "usage_events_json"@)
                    &&& i.organization_id == match present(m, "organization_id"@) {
                        Some(t) => parsed_uuid(t),
                        None => None,
                    }
                    &&& opt_text(i.organization_external_key) == present(m, "organization_external_key"@)
                    &&& opt_text(i.website) == present(m, "website"@)
                    &&& opt_text(i.industry) == present(m, "industry"@)
                },
            },
    {
        let organization_name = owned(required_input(inputs, "organization_name")?);
        let visitor_id = owned(required_input(inputs, "visitor_id")?);
        let usage_events_json = owned(required_input(inputs, "usage_events_json")?);
        let organization_id = optional_uuid(inputs, "organization_id")?;
        Ok(
            ScoreInboundFitInput {
                organization_name,
                visitor_id,
                usage_events_json,
                organization_id,
                organization_external_key: optional_input(inputs, "organization_external_key"),
                website: optional_input(inputs, "website"),
                industry: optional_input(inputs, "industry"),
            },
        )
    }
}

/// One usage event of a visitor.
#[derive(Debug, Clone)]
pub struct UsageEventSeed {
    pub visitor_id: String,
    pub timestamp: i64,
    pub event_type: String,
    pub page: String,
}

/// A run needs at least one usage event.
pub fn require_usage_events(count: usize) -> (r: Result<(), Status>)
    ensures
        count == 0 ==> (r matches Err(s) && invalid_argument(s, "usage_events_json must not be empty"@)),
        count > 0 ==> r is Ok,
{
    if count == 0 {
        Err(Status { code: StatusCode::InvalidArgument, message: owned("usage_events_json must not be empty") })
    } else {
        Ok(())
    }
}

/// One event as a table row: `{visitor},{timestamp},{type},{page}` and a
/// line break.
pub open spec fn csv_row(e: UsageEventSeed) -> Seq<char> {
    e.visitor_id@ + ","@ + int_decimal(e.timestamp as int) + ","@ + e.event_type@ + ","@ + e.page@ + "\n"@
}

/// The header and the rows of the first `n` events.
pub open spec fn csv_table(events: Seq<UsageEventSeed>, n: int) -> Seq<char>
    decreases n,
{
    if n <= 0 {
        "visitor_id,timestamp,event_type,page\n"@
    } else {
        csv_table(events, n - 1) + csv_row(events[n - 1])
    }
}

/// The event table that feature extraction reads: a header line, then one
/// line per event, in order.
pub fn usage_events_csv(events: &Vec<UsageEventSeed>) -> (r: String)
    ensures
        r@ == csv_table(events@, events@.len() as int),
{
    let mut out = owned("visitor_id,timestamp,event_type,page\n");
    let n = events.len();
    let mut i: usize = 0;
    while i < n
        invariant
            n == events@.len(),
            i <= n,
            out@ == csv_table(events@, i as int),
        decreases n - i,
    {
        let e = &events[i];
        let ts = i64_text(e.timestamp);
        let ghost before = out@;
        push_text(&mut out, e.visitor_id.as_str());
        push_text(&mut out, ",");
        push_text(&mut out, ts.as_str());
        push_text(&mut out, ",");
        push_text(&mut out, e.event_type.as_str());
        push_text(&mut out, ",");
        push_text(&mut out, e.page.as_str());
        push_text(&mut out, "\n");
        assert(out@ =~= before + csv_row(events@[i as int]));
        i = i + 1;
    }
    out
}

/// The label of a fit score: high from 8 000, medium from 5 500, low below.
pub open spec fn label_of(score_bps: u16) -> Seq<char> {
    if 8000 <= score_bps <= 10000 {
        "high-fit"@
    } else if 5500 <= score_bps <= 7999 {
        "medium-fit"@
    } else {
        "low-fit"@
    }
}

/// The label of a fit score.
pub fn fit_label(score_bps: u16) -> (r: &'static str)
    ensures
        r@ == label_of(score_bps),
{
    if 8000 <= score_bps && score_bps <= 10000 {
        "high-fit"
    } else if 5500 <= score_bps && score_bps <= 7999 {
        "medium-fit"
    } else {
        "low-fit"
    }
}

/// The statement that records a fit score: `Inbound fit score {score} bps
/// ({label}) with rationale: {rationale}`.
pub open spec fn score_statement(score_bps: u16, label: Seq<char>, rationale: Seq<char>) -> Seq<char> {
    "Inbound fit score "@ + int_decimal(score_bps as int) + " bps ("@ + label + ") with rationale: "@
        + rationale
}

/// The statement that records a fit score.
pub fn fit_score_statement(score_bps: u16, label: &str, rationale: &str) -> (r: String)
    ensures
        r@ == score_statement(score_bps, label@, rationale@),
{
    let s = u16_text(score_bps);
    let a = concat3("Inbound fit score ", s.as_str(), " bps (");
    let b = concat3(a.as_str(), label, ") with rationale: ");
    concat2(b.as_str(), rationale)
}

} // verus!
