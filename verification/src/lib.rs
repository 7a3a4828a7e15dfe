//! A verified core for a small event-driven chat responder.
//!
//! Business logic never talks to the chat platform directly: it produces an
//! ordered [`plan::DiscordExecPlan`] of outbound actions, which is checked
//! against the interaction-ordering rules in [`validate`] and then carried
//! out step by step by an executor. The executor's per-step decisions live in
//! [`exec`]; the startup command-registration retry policy lives in [`retry`].

pub mod config;
pub mod exec;
pub mod greeting;
pub mod help;
pub mod on_message;
pub mod plan;
pub mod retry;
pub mod validate;
