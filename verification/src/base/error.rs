//! The runtime's general error type.

use vstd::prelude::*;
use vstd::string::*;

verus! {

#[verifier::external_type_specification]
#[verifier::external_body]
pub struct ExIoError(std::io::Error);

#[verifier::external_type_specification]
#[verifier::external_body]
pub struct ExJsonError(serde_json::Error);

#[verifier::external_type_specification]
#[verifier::external_body]
pub struct ExConfigError(config::ConfigError);

/// Errors of the agent runtime.
#[derive(Debug)]
pub enum AgentError {
    /// Configuration errors.
    Config(String),
    /// I/O errors.
    Io(std::io::Error),
    /// Serialization errors.
    Serialization(serde_json::Error),
    /// Configuration parsing errors.
    ConfigParse(config::ConfigError),
    /// Other errors.
    Other(String),
}

impl AgentError {
    pub fn config(msg: &str) -> (e: AgentError)
        ensures
            e matches AgentError::Config(m) && m@ == msg@,
    {
        AgentError::Config(String::from_str(msg))
    }

    pub fn other(msg: &str) -> (e: AgentError)
        ensures
            e matches AgentError::Other(m) && m@ == msg@,
    {
        AgentError::Other(String::from_str(msg))
    }
}

/// The result of runtime operations.
pub type Result<T> = std::result::Result<T, AgentError>;

impl From<std::io::Error> for AgentError {
    fn from(e: std::io::Error) -> (r: AgentError) {
        AgentError::Io(e)
    }
}

impl vstd::std_specs::convert::FromSpecImpl<std::io::Error> for AgentError {
    open spec fn obeys_from_spec() -> bool {
        true
    }

    open spec fn from_spec(e: std::io::Error) -> AgentError {
        AgentError::Io(e)
    }
}
impl From<serde_json::Error> for AgentError {
    fn from(e: serde_json::Error) -> (r: AgentError) {
        AgentError::Serialization(e)
    }
}

impl vstd::std_specs::convert::FromSpecImpl<serde_json::Error> for AgentError {
    open spec fn obeys_from_spec() -> bool {
        true
    }

    open spec fn from_spec(e: serde_json::Error) -> AgentError {
        AgentError::Serialization(e)
    }
}
impl From<config::ConfigError> for AgentError {
    fn from(e: config::ConfigError) -> (r: AgentError) {
        AgentError::ConfigParse(e)
    }
}

impl vstd::std_specs::convert::FromSpecImpl<config::ConfigError> for AgentError {
    open spec fn obeys_from_spec() -> bool {
        true
    }

    open spec fn from_spec(e: config::ConfigError) -> AgentError {
        AgentError::ConfigParse(e)
    }
}

} // verus!
