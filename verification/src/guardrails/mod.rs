//! Guardrails: checks on inputs, outputs and tool calls.

pub mod error;
pub mod violation;
pub mod chain;
pub mod tool_allowlist;
pub mod cost_limiter;
pub mod rate_limiter;
pub mod config;
pub mod content_filter;




