//! The request-execution spine of an inspector for Model-Context-Protocol servers:
//! idempotent claims with a reaper, an error-budget breaker, session and target
//! planning, stream collection, the outbox's write plan, and the orchestration that
//! ties them together for one call. The library opens no file and no connection:
//! what it decides is carried out by its caller, and all it reads itself is the clock.

pub mod budget_laws;
pub mod call_laws;
pub mod clock;
pub mod command;
pub mod compliance;
pub mod config;
pub mod error_budget;
pub mod idempotency;
pub mod ids;
pub mod json;
pub mod keyed;
pub mod metrics;
pub mod orchestrator;
pub mod outbox;
pub mod registry;
pub mod run;
pub mod server;
pub mod session;
pub mod store_laws;
pub mod stream;
pub mod text;
pub mod types;
