//! Registration of webhooks at payment connectors.
//!
//! A merchant's connector account can have webhooks registered at the connector: one for the whole
//! account, one for each payment method type, or one for each event type. The connector says which
//! calls a request takes (its registration plan); the flow makes them one by one, keeps what was
//! registered in the account record, and answers with one result for each call.
//!
//! * `enums`, `api_models`, `domain`, `errors`: the data.
//! * `json`: JSON documents, and what is relied on about `serde_json`.
//! * `transformers`: the single decisions and conversions.
//! * `registration`, `fetch`: the two flows, each from state and event to next state and action.
//! * `laws`: what holds of whole runs and of the pieces together.
//! * `operation_laws`: how the result of each operation relates to what it was given.
//! * `run_laws`: what each action of a run carries, and what follows each event.

pub mod api_models;
pub mod domain;
pub mod enums;
pub mod errors;
pub mod fetch;
pub mod json;
pub mod laws;
pub mod operation_laws;
pub mod registration;
pub mod run_laws;
pub mod transformers;
