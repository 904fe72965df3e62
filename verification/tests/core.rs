use agent_framework::base::config::{load_config, load_config_or_default, AgentConfig, AgentSettings, LoggingConfig};
use agent_framework::base::context::AgentId;
use agent_framework::base::error::{AgentError, Result};
use agent_framework::base::logging::LogConfig;

fn returns_result() -> Result<i32> {
    Ok(42)
}

fn parse_failure() -> config::ConfigError {
    config::ConfigError::Message("bad value".to_string())
}

#[test]
fn config_test_default_config() {
    let config = AgentConfig::default();
    assert_eq!(config.logging.level, "info");
    assert_eq!(config.agent.name, "agent");
    assert_eq!(config.agent.max_iterations, 10);
}

#[test]
fn test_load_nonexistent_file() {
    let result = load_config("nonexistent.toml", None);
    assert!(result.is_err());
    match result {
        Err(AgentError::Config(m)) => assert_eq!(m, "Config file not found: nonexistent.toml"),
        _ => panic!("expected a configuration error"),
    }
}

#[test]
fn test_load_or_default() {
    let config = load_config_or_default("nonexistent.toml", None);
    assert_eq!(config.agent.name, "agent");
}

#[test]
fn loading_passes_parsed_configs_and_parse_errors_on() {
    let custom = AgentConfig {
        logging: LoggingConfig { level: "trace".to_string(), json: false },
        agent: AgentSettings { name: "custom-agent".to_string(), max_iterations: 50 },
    };
    let loaded = load_config("agent.toml", Some(Ok(custom.clone()))).unwrap();
    assert_eq!(loaded.agent.name, "custom-agent");
    assert_eq!(loaded.agent.max_iterations, 50);
    assert!(matches!(load_config("agent.toml", Some(Err(parse_failure()))), Err(AgentError::ConfigParse(_))));

    let fallback = load_config_or_default("agent.toml", Some(Err(parse_failure())));
    assert_eq!(fallback.agent.name, "agent");
    let kept = load_config_or_default("agent.toml", Some(Ok(custom)));
    assert_eq!(kept.logging.level, "trace");
}

#[test]
fn error_test_error_creation() {
    let err = AgentError::config("test error");
    assert!(matches!(err, AgentError::Config(ref m) if m == "test error"));
    assert!(matches!(AgentError::other("x"), AgentError::Other(ref m) if m == "x"));
}

#[test]
fn test_error_from_io() {
    let io_err = std::io::Error::new(std::io::ErrorKind::NotFound, "file not found");
    let err = AgentError::from(io_err);
    assert!(matches!(err, AgentError::Io(_)));
}

#[test]
fn test_result_type() {
    assert_eq!(returns_result().unwrap(), 42);
}

#[test]
fn test_basic_functionality() {
    let config = AgentConfig::default();
    assert_eq!(config.agent.name, "agent");
}

#[test]
fn logging_test_default_config() {
    let config = LogConfig::default();
    assert_eq!(config.level, "info");
    assert!(!config.json);
}

#[test]
fn test_custom_config() {
    let config = LogConfig { level: "debug".to_string(), json: true };
    assert_eq!(config.level, "debug");
    assert!(config.json);
}

#[test]
fn test_config_loading() {
    let config = load_config_or_default("nonexistent.toml", None);
    assert_eq!(config.agent.name, "agent");
    assert_eq!(config.logging.level, "info");
}

#[test]
fn test_error_handling() {
    let result: Result<()> = Err(AgentError::config("test error"));
    assert!(result.is_err());
    if let Err(AgentError::Config(m)) = result {
        assert!(m.contains("test error"));
    }
}

#[test]
fn test_error_conversion() {
    let io_err = std::io::Error::new(std::io::ErrorKind::NotFound, "not found");
    let agent_err = AgentError::from(io_err);
    assert!(matches!(agent_err, AgentError::Io(_)));
}

#[test]
fn test_logging_config() {
    let config = LogConfig { level: "debug".to_string(), json: true };
    assert_eq!(config.level, "debug");
    assert!(config.json);
}

#[test]
fn test_agent_config_defaults() {
    let config = AgentConfig::default();
    assert_eq!(config.logging.level, "info");
    assert!(!config.logging.json);
    assert_eq!(config.agent.name, "agent");
    assert_eq!(config.agent.max_iterations, 10);
}

#[test]
fn agent_id_holds_its_text() {
    let id = AgentId::new("agent-7");
    assert_eq!(id.as_str(), "agent-7");
    assert_eq!(AgentId::from("agent-7".to_string()), id);
}

#[test]
fn agent_id_from_str() {
    let s = String::from("agent-9");
    assert_eq!(AgentId::from(s.as_str()), AgentId::new("agent-9"));
    assert_eq!(AgentId::from(s.as_str()).as_str(), "agent-9");
}

#[test]
fn trim_drops_unicode_whitespace_at_both_ends() {
    assert_eq!(agent_framework::support::trim("  hi there \t\n"), "hi there");
    assert_eq!(agent_framework::support::trim("\u{3000}é\u{a0}"), "é");
    assert_eq!(agent_framework::support::trim(" \t "), "");
    assert_eq!(agent_framework::support::trim(""), "");
}
