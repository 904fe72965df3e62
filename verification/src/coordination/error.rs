//! Errors of agent coordination.

use vstd::prelude::*;
use vstd::string::*;
use crate::base::error::AgentError;
use crate::comms::error::CommsError;

verus! {

/// Errors of agent coordination.
#[derive(Debug)]
pub enum CoordinationError {
    /// Configuration error.
    Config(String),
    /// An agent could not be spawned.
    SpawnFailed(String),
    /// Communication failed.
    Communication(CommsError),
    /// The agent runtime failed.
    Runtime(String),
    /// Other errors.
    Other(String),
    /// An error of the runtime core.
    CoreError(AgentError),
}

impl CoordinationError {
    pub fn config(msg: &str) -> (e: CoordinationError)
        ensures
            e matches CoordinationError::Config(m) && m@ == msg@,
    {
        CoordinationError::Config(String::from_str(msg))
    }

    pub fn spawn_failed(msg: &str) -> (e: CoordinationError)
        ensures
            e matches CoordinationError::SpawnFailed(m) && m@ == msg@,
    {
        CoordinationError::SpawnFailed(String::from_str(msg))
    }

    pub fn other(msg: &str) -> (e: CoordinationError)
        ensures
            e matches CoordinationError::Other(m) && m@ == msg@,
    {
        CoordinationError::Other(String::from_str(msg))
    }
}

impl From<CommsError> for CoordinationError {
    fn from(e: CommsError) -> (r: CoordinationError) {
        CoordinationError::Communication(e)
    }
}

impl vstd::std_specs::convert::FromSpecImpl<CommsError> for CoordinationError {
    open spec fn obeys_from_spec() -> bool {
        true
    }

    open spec fn from_spec(e: CommsError) -> CoordinationError {
        CoordinationError::Communication(e)
    }
}
impl From<AgentError> for CoordinationError {
    fn from(e: AgentError) -> (r: CoordinationError) {
        CoordinationError::CoreError(e)
    }
}

impl vstd::std_specs::convert::FromSpecImpl<AgentError> for CoordinationError {
    open spec fn obeys_from_spec() -> bool {
        true
    }

    open spec fn from_spec(e: AgentError) -> CoordinationError {
        CoordinationError::CoreError(e)
    }
}

} // verus!
