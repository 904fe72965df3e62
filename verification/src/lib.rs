//! Verified core of a multi-agent runtime: guardrails, human approval,
//! conversations, agent hierarchy and coordination decisions.

pub mod table;
pub mod support;
pub mod llm;
pub mod guardrails;
pub mod base;
pub mod comms;
pub mod hitl;
pub mod coordination;
