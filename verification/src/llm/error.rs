//! Errors of language-model operations.

use vstd::prelude::*;
use vstd::string::*;
use crate::base::error::AgentError;

verus! {

#[verifier::external_type_specification]
#[verifier::external_body]
pub struct ExHttpError(reqwest::Error);

/// `Display` of `reqwest::Error`: the error's message. Nothing is stated of
/// the text, which the crate composes from what failed.
#[verifier::external_body]
pub(crate) fn http_error_text(e: &reqwest::Error) -> String {
    e.to_string()
}

/// Errors that can occur during language-model operations.
#[derive(Debug)]
pub enum LLMError {
    /// The HTTP request failed.
    HttpError(reqwest::Error),
    /// The API returned an error.
    ApiError(String),
    /// The API's response could not be parsed.
    ParseError(String),
    /// No provider of that name.
    UnsupportedProvider(String),
    /// Invalid configuration.
    ConfigError(String),
    /// Rate limit exceeded, with the seconds to wait where the server said so.
    RateLimitExceeded(Option<u64>),
    /// A streamed reply failed.
    StreamError(String),
    /// The request timed out.
    Timeout,
    /// An error of the runtime core.
    CoreError(AgentError),
}

impl LLMError {
    /// An API error with the given message.
    pub fn api_error(msg: &str) -> (e: LLMError)
        ensures
            e matches LLMError::ApiError(m) && m@ == msg@,
    {
        LLMError::ApiError(String::from_str(msg))
    }

    /// A parse error with the given message.
    pub fn parse_error(msg: &str) -> (e: LLMError)
        ensures
            e matches LLMError::ParseError(m) && m@ == msg@,
    {
        LLMError::ParseError(String::from_str(msg))
    }

    /// A configuration error with the given message.
    pub fn config_error(msg: &str) -> (e: LLMError)
        ensures
            e matches LLMError::ConfigError(m) && m@ == msg@,
    {
        LLMError::ConfigError(String::from_str(msg))
    }

    /// A stream error with the given message.
    pub fn stream_error(msg: &str) -> (e: LLMError)
        ensures
            e matches LLMError::StreamError(m) && m@ == msg@,
    {
        LLMError::StreamError(String::from_str(msg))
    }

    /// Whether trying the same request again may succeed: transport
    /// failures, rate limiting and timeouts.
    pub fn is_retryable(&self) -> (b: bool)
        ensures
            b <==> (self is HttpError || self is RateLimitExceeded || self is Timeout),
    {
        match self {
            LLMError::HttpError(_) => true,
            LLMError::RateLimitExceeded(_) => true,
            LLMError::Timeout => true,
            _ => false,
        }
    }
}

impl From<reqwest::Error> for LLMError {
    fn from(e: reqwest::Error) -> (r: LLMError) {
        LLMError::HttpError(e)
    }
}

impl vstd::std_specs::convert::FromSpecImpl<reqwest::Error> for LLMError {
    open spec fn obeys_from_spec() -> bool {
        true
    }

    open spec fn from_spec(e: reqwest::Error) -> LLMError {
        LLMError::HttpError(e)
    }
}
impl From<AgentError> for LLMError {
    fn from(e: AgentError) -> (r: LLMError) {
        LLMError::CoreError(e)
    }
}

impl vstd::std_specs::convert::FromSpecImpl<AgentError> for LLMError {
    open spec fn obeys_from_spec() -> bool {
        true
    }

    open spec fn from_spec(e: AgentError) -> LLMError {
        LLMError::CoreError(e)
    }
}

} // verus!
