//! Errors of agent communication.

use vstd::prelude::*;
use vstd::string::*;
use crate::base::error::AgentError;

verus! {

/// Errors of agent communication.
#[derive(Debug)]
pub enum CommsError {
    /// No agent with this id.
    AgentNotFound(String),
    /// A message could not be delivered.
    DeliveryFailed(String),
    /// No response within the time limit.
    Timeout(std::time::Duration),
    /// The hierarchy does not allow the action.
    Permission(String),
    /// A message could not be (de)serialized.
    Serialization(serde_json::Error),
    /// The transport failed.
    Transport(String),
    /// Other errors.
    Other(String),
    /// An error of the runtime.
    CoreError(AgentError),
}

impl CommsError {
    pub fn transport(msg: &str) -> (e: CommsError)
        ensures
            e matches CommsError::Transport(m) && m@ == msg@,
    {
        CommsError::Transport(String::from_str(msg))
    }

    pub fn delivery_failed(msg: &str) -> (e: CommsError)
        ensures
            e matches CommsError::DeliveryFailed(m) && m@ == msg@,
    {
        CommsError::DeliveryFailed(String::from_str(msg))
    }

    pub fn other(msg: &str) -> (e: CommsError)
        ensures
            e matches CommsError::Other(m) && m@ == msg@,
    {
        CommsError::Other(String::from_str(msg))
    }
}

impl From<serde_json::Error> for CommsError {
    fn from(e: serde_json::Error) -> (r: CommsError) {
        CommsError::Serialization(e)
    }
}

impl vstd::std_specs::convert::FromSpecImpl<serde_json::Error> for CommsError {
    open spec fn obeys_from_spec() -> bool {
        true
    }

    open spec fn from_spec(e: serde_json::Error) -> CommsError {
        CommsError::Serialization(e)
    }
}
impl From<AgentError> for CommsError {
    fn from(e: AgentError) -> (r: CommsError) {
        CommsError::CoreError(e)
    }
}

impl vstd::std_specs::convert::FromSpecImpl<AgentError> for CommsError {
    open spec fn obeys_from_spec() -> bool {
        true
    }

    open spec fn from_spec(e: AgentError) -> CommsError {
        CommsError::CoreError(e)
    }
}

} // verus!
