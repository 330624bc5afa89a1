use crabrace::config::Config;
use crabrace::config::ConfigError;
use crabrace::config::LogLevel;
use crabrace::config::parse_log_level;

#[test]
fn test_default_config() {
    let config = Config::default();
    assert_eq!(config.server.host, "0.0.0.0");
    assert_eq!(config.server.port, 8080);
    assert!(config.server.compression);
    assert_eq!(config.logging.level, "info");
    assert!(config.metrics.enabled);
}

#[test]
fn test_validate_config() {
    let mut config = Config::default();

    // Valid config
    assert!(config.validate().is_ok());

    // Invalid port
    config.server.port = 0;
    assert!(config.validate().is_err());

    config.server.port = 8080;

    // Invalid timeout
    config.server.timeout_seconds = 0;
    assert!(config.validate().is_err());

    config.server.timeout_seconds = 30;

    // Invalid log level
    config.logging.level = "invalid".to_string();
    assert!(config.validate().is_err());
}

#[test]
fn test_tracing_level() {
    let mut config = Config::default();

    config.logging.level = "debug".to_string();
    assert_eq!(config.tracing_level(), LogLevel::Debug);

    config.logging.level = "warn".to_string();
    assert_eq!(config.tracing_level(), LogLevel::Warn);

    config.logging.level = "info".to_string();
    assert_eq!(config.tracing_level(), LogLevel::Info);
}

#[test]
fn test_tracing_level_fallback() {
    let mut config = Config::default();
    config.logging.level = "verbose".to_string();
    assert_eq!(config.tracing_level(), LogLevel::Info);
}

#[test]
fn test_parse_log_level_case_insensitive() {
    assert_eq!(parse_log_level("TRACE"), Some(LogLevel::Trace));
    assert_eq!(parse_log_level("Debug"), Some(LogLevel::Debug));
    assert_eq!(parse_log_level("info"), Some(LogLevel::Info));
    assert_eq!(parse_log_level("wArN"), Some(LogLevel::Warn));
    assert_eq!(parse_log_level("ERROR"), Some(LogLevel::Error));
    assert_eq!(parse_log_level("nope"), None);
    assert_eq!(parse_log_level(""), None);
}

#[test]
fn test_validate_error_order() {
    let mut config = Config::default();
    config.server.port = 0;
    config.server.timeout_seconds = 0;
    config.logging.level = "invalid".to_string();
    // The port rule is checked first, then the timeout, then the level.
    assert_eq!(config.validate().unwrap_err(), ConfigError::ZeroPort);
    config.server.port = 1;
    assert_eq!(config.validate().unwrap_err(), ConfigError::ZeroTimeout);
    config.server.timeout_seconds = 1;
    assert_eq!(config.validate().unwrap_err(), ConfigError::InvalidLogLevel);
}

#[test]
fn test_config_error_messages() {
    assert_eq!(ConfigError::ZeroPort.message(), "Server port cannot be 0");
    assert_eq!(ConfigError::ZeroTimeout.message(), "Server timeout cannot be 0");
    assert_eq!(
        ConfigError::InvalidLogLevel.message(),
        "Invalid log level. Valid levels: trace, debug, info, warn, error"
    );
}
