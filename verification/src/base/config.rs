//! Runtime configuration, its defaults, and the choice made after a load.
//!
//! Reading the file and the environment happens outside the library; what it
//! found is handed to [`load_config`] as plain values.

use vstd::prelude::*;
use vstd::string::*;
use crate::base::error::AgentError;

verus! {

/// Logging configuration.
#[derive(Debug, Clone)]
pub struct LoggingConfig {
    /// Log level: trace, debug, info, warn, error.
    pub level: String,
    /// Use JSON format.
    pub json: bool,
}

/// Agent settings.
#[derive(Debug, Clone)]
pub struct AgentSettings {
    /// Agent name or identifier.
    pub name: String,
    /// Maximum iterations of the agent loop.
    pub max_iterations: usize,
}

/// Main configuration of the agent runtime.
#[derive(Debug, Clone)]
pub struct AgentConfig {
    pub logging: LoggingConfig,
    pub agent: AgentSettings,
}

/// The log level used when none is configured.
pub open spec fn spec_default_log_level() -> Seq<char> {
    seq!['i', 'n', 'f', 'o']
}

/// The agent name used when none is configured.
pub open spec fn spec_default_agent_name() -> Seq<char> {
    seq!['a', 'g', 'e', 'n', 't']
}

/// The loop bound used when none is configured.
pub open spec fn spec_default_max_iterations() -> usize {
    10
}

/// The configuration that holds every default.
pub open spec fn is_default_config(c: AgentConfig) -> bool {
    &&& c.logging.level@ == spec_default_log_level()
    &&& !c.logging.json
    &&& c.agent.name@ == spec_default_agent_name()
    &&& c.agent.max_iterations == spec_default_max_iterations()
}

/// The default log level, `info`.
pub fn default_log_level() -> (s: String)
    ensures
        s@ == spec_default_log_level(),
{
    proof { reveal_strlit("info"); }
    String::from_str("info")
}

/// The default agent name, `agent`.
pub fn default_agent_name() -> (s: String)
    ensures
        s@ == spec_default_agent_name(),
{
    proof { reveal_strlit("agent"); }
    String::from_str("agent")
}

/// The default bound on agent loop iterations, 10.
pub fn default_max_iterations() -> (n: usize)
    ensures
        n == spec_default_max_iterations(),
{
    10
}

impl Default for AgentConfig {
    fn default() -> (c: Self)
        ensures
            is_default_config(c),
    {
        AgentConfig {
            logging: LoggingConfig { level: default_log_level(), json: false },
            agent: AgentSettings { name: default_agent_name(), max_iterations: default_max_iterations() },
        }
    }
}

/// The message of the error for a configuration file that is not there.
pub open spec fn not_found_message(path: Seq<char>) -> Seq<char> {
    "Config file not found: "@ + path
}

/// The configuration read from `path`. `contents` is what the reader found
/// there: `None` when no file exists at `path`, else the result of parsing
/// the file (with the environment laid over it).
///
/// A missing file is a configuration error naming the path; a parse failure
/// is passed on as such; a parsed configuration is returned unchanged.
pub fn load_config(path: &str, contents: Option<Result<AgentConfig, config::ConfigError>>) -> (r: Result<AgentConfig, AgentError>)
    ensures
        contents is None ==> (r matches Err(AgentError::Config(m)) && m@ == not_found_message(path@)),
        contents matches Some(Ok(c)) ==> r == Ok::<AgentConfig, AgentError>(c),
        contents matches Some(Err(e)) ==> r == Err::<AgentConfig, AgentError>(AgentError::ConfigParse(e)),
{
    match contents {
        None => {
            let msg = String::from_str("Config file not found: ").concat(path);
            Err(AgentError::Config(msg))
        },
        Some(Ok(c)) => Ok(c),
        Some(Err(e)) => Err(AgentError::ConfigParse(e)),
    }
}

/// The configuration read from `path`, or the defaults where it could not be
/// loaded (no file, or a parse failure).
pub fn load_config_or_default(path: &str, contents: Option<Result<AgentConfig, config::ConfigError>>) -> (c: AgentConfig)
    ensures
        contents matches Some(Ok(loaded)) ==> c == loaded,
        !(contents matches Some(Ok(_))) ==> is_default_config(c),
{
    match load_config(path, contents) {
        Ok(c) => c,
        Err(_) => AgentConfig::default(),
    }
}

} // verus!
