//! Errors of approval workflows.

use vstd::prelude::*;
use vstd::string::*;
use crate::base::error::AgentError;

verus! {

/// Errors of approval workflows.
#[derive(Debug)]
pub enum HitlError {
    /// No decision within the time limit.
    Timeout(std::time::Duration),
    /// The request was denied.
    Denied(String),
    /// The request is malformed.
    InvalidRequest(String),
    /// The strategy failed.
    StrategyError(String),
    /// An error of the runtime.
    CoreError(AgentError),
    /// An I/O error.
    Io(std::io::Error),
}

impl HitlError {
    pub fn strategy(msg: &str) -> (e: HitlError)
        ensures
            e matches HitlError::StrategyError(m) && m@ == msg@,
    {
        HitlError::StrategyError(String::from_str(msg))
    }
}

impl From<AgentError> for HitlError {
    fn from(e: AgentError) -> (r: HitlError) {
        HitlError::CoreError(e)
    }
}

impl vstd::std_specs::convert::FromSpecImpl<AgentError> for HitlError {
    open spec fn obeys_from_spec() -> bool {
        true
    }

    open spec fn from_spec(e: AgentError) -> HitlError {
        HitlError::CoreError(e)
    }
}
impl From<std::io::Error> for HitlError {
    fn from(e: std::io::Error) -> (r: HitlError) {
        HitlError::Io(e)
    }
}

impl vstd::std_specs::convert::FromSpecImpl<std::io::Error> for HitlError {
    open spec fn obeys_from_spec() -> bool {
        true
    }

    open spec fn from_spec(e: std::io::Error) -> HitlError {
        HitlError::Io(e)
    }
}

} // verus!
