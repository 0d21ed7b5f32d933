use vstd::prelude::*;

pub mod a2a;
pub mod ansi;
pub mod activity;
pub mod auth;
pub mod compaction;
pub mod decimal;
pub mod exec_output;
pub mod handshake;
pub mod ids;
pub mod json;
pub mod json_value;
pub mod recovery;
pub mod permissions;
pub mod rate_limits;
pub mod reports;
pub mod session_config;
pub mod sessions;
pub mod streaming;
pub mod subagent_ownership;
pub mod subagents;
pub mod task_plan;
pub mod tasks;
pub mod telemetry;
pub mod text;
pub mod tool_args;
pub mod tool_call;
pub mod transport;
pub mod turn;

verus! {
} // verus!
