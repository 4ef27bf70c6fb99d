//! Verified core of the Nanocodex agent.
use vstd::prelude::*;

pub mod branch;
pub mod code_mode;
pub mod config;
pub mod control;
pub mod conversation;
pub mod driver;
pub mod emitted_output;
pub mod error;
pub mod handle;
pub mod host;
pub mod items;
pub mod json;
pub mod openai;
pub mod pricing;
pub mod prompt;
pub mod queue;
pub mod response;
pub mod responses;
pub mod rollout;
pub mod run;
pub mod service;
pub mod session;
pub mod session_id;
pub mod text;
pub mod tool_calls;
pub mod tools;
pub mod transport;
pub mod usage;

verus! {

/// The model that every request targets.
pub const MODEL: &'static str = "gpt-5.6-sol";

/// Tokens that the context window of the model holds.
pub const CONTEXT_WINDOW_TOKENS: u64 = 272_000;

} // verus!
