//! Verified core of the Helm application server: billing ingress
//! normalization and idempotency, CRM contract parsing, runtime approval
//! gates, the realtime replay log, the showcase pipeline coordinator, and
//! the billing and meeting policies behind the server's truths.
use vstd::prelude::*;

pub mod text;
pub mod ids;
pub mod inputs;
pub mod contracts;
pub mod billing;
pub mod runtime;
pub mod storage;
pub mod names;
pub mod realtime;
pub mod json;
pub mod pipeline;
pub mod sse;
pub mod codegen;
pub mod truths;
pub mod routes;

verus! {
} // verus!
