//! The truths that the CRM runs: how each reads its string inputs, and the
//! policies that decide what each run proposes.
pub mod common;
pub mod schedule_strategic_meetings;
pub mod evaluate_acquisition_target;
pub mod refill_prepaid_ai_credits;
pub mod suspend_service_on_payment_failure;
pub mod reconcile_model_usage_against_customer_ledger;
pub mod activate_subscription;
pub mod score_inbound_fit;
pub mod match_renewal_context;
pub mod plan_outbound_campaign;
