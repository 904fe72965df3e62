//! Errors of guardrail operations.

use vstd::prelude::*;
use vstd::string::*;
use crate::base::error::AgentError;

verus! {

/// Errors of guardrail operations.
#[derive(Debug)]
pub enum GuardrailError {
    /// A guardrail error with a message.
    Error(String),
    /// An error of the runtime.
    CoreError(AgentError),
}

impl GuardrailError {
    pub fn error(msg: &str) -> (e: GuardrailError)
        ensures
            e matches GuardrailError::Error(m) && m@ == msg@,
    {
        GuardrailError::Error(String::from_str(msg))
    }
}

impl From<AgentError> for GuardrailError {
    fn from(e: AgentError) -> (r: GuardrailError) {
        GuardrailError::CoreError(e)
    }
}

impl vstd::std_specs::convert::FromSpecImpl<AgentError> for GuardrailError {
    open spec fn obeys_from_spec() -> bool {
        true
    }

    open spec fn from_spec(e: AgentError) -> GuardrailError {
        GuardrailError::CoreError(e)
    }
}

} // verus!
