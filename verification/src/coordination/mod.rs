//! Spawning agents from role templates, and what a running agent does with
//! each message it receives.

pub mod error;
pub mod factory;
pub mod orchestrator;
