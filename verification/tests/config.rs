use hawkops::config::{
    default_api_url, default_log_level, default_timeout, default_token_refresh, ApiConfig,
    AuthConfig, HawkOpsConfig, LoggingConfig, _ops_init,
};
use hawkops::error::{api_error, auth_error, config_error, invalid_input, HawkOpsError};

#[test]
fn defaults_match_documented_values() {
    assert_eq!(default_api_url(), "https://api.stackhawk.com");
    assert_eq!(default_timeout(), 30);
    assert!(default_token_refresh());
    assert_eq!(default_log_level(), "info");
}

#[test]
fn default_config_is_assembled_from_section_defaults() {
    let cfg = HawkOpsConfig::default();
    assert_eq!(cfg.api.base_url, "https://api.stackhawk.com");
    assert_eq!(cfg.api.api_key, None);
    assert_eq!(cfg.api.timeout_seconds, 30);
    assert_eq!(cfg.auth.access_token, None);
    assert_eq!(cfg.auth.refresh_token, None);
    assert!(cfg.auth.auto_refresh);
    assert_eq!(cfg.logging.level, "info");
    assert_eq!(cfg.logging.file, None);
}

#[test]
fn update_auth_tokens_replaces_only_the_token_pair() {
    let mut cfg = HawkOpsConfig {
        api: ApiConfig {
            base_url: "https://h".to_string(),
            api_key: Some("k".to_string()),
            timeout_seconds: 7,
        },
        auth: AuthConfig {
            access_token: Some("old-a".to_string()),
            refresh_token: Some("old-r".to_string()),
            auto_refresh: false,
        },
        logging: LoggingConfig { level: "debug".to_string(), file: Some("log.txt".to_string()) },
    };
    let r = cfg.update_auth_tokens("new-a".to_string(), None);
    assert!(r.is_ok());
    assert_eq!(cfg.auth.access_token, Some("new-a".to_string()));
    assert_eq!(cfg.auth.refresh_token, None);
    assert!(!cfg.auth.auto_refresh);
    assert_eq!(cfg.api.base_url, "https://h");
    assert_eq!(cfg.api.api_key, Some("k".to_string()));
    assert_eq!(cfg.api.timeout_seconds, 7);
    assert_eq!(cfg.logging.level, "debug");
    assert_eq!(cfg.logging.file, Some("log.txt".to_string()));
}

#[test]
fn update_auth_tokens_is_idempotent() {
    let mut once = HawkOpsConfig::default();
    once.update_auth_tokens("a".to_string(), Some("r".to_string())).unwrap();
    let mut twice = HawkOpsConfig::default();
    twice.update_auth_tokens("a".to_string(), Some("r".to_string())).unwrap();
    twice.update_auth_tokens("a".to_string(), Some("r".to_string())).unwrap();
    assert_eq!(once.auth.access_token, twice.auth.access_token);
    assert_eq!(once.auth.refresh_token, twice.auth.refresh_token);
    assert_eq!(once.auth.auto_refresh, twice.auth.auto_refresh);
}

#[test]
fn ops_init_succeeds() {
    assert!(_ops_init().is_ok());
}

#[test]
fn error_messages_carry_their_class_prefix() {
    assert_eq!(
        HawkOpsError::ApiError("a".to_string()).message(),
        "API error: a"
    );
    assert_eq!(
        HawkOpsError::AuthError("b".to_string()).message(),
        "Authentication error: b"
    );
    assert_eq!(
        HawkOpsError::ConfigError("c".to_string()).message(),
        "Configuration error: c"
    );
    assert_eq!(
        HawkOpsError::HttpError("d".to_string()).message(),
        "HTTP error: d"
    );
    assert_eq!(
        HawkOpsError::IoError("e".to_string()).message(),
        "I/O error: e"
    );
    assert_eq!(
        HawkOpsError::InvalidInput("f".to_string()).message(),
        "Invalid input: f"
    );
    assert_eq!(
        HawkOpsError::MissingField("g".to_string()).message(),
        "Missing required field: g"
    );
    assert_eq!(
        HawkOpsError::SerializationError("h".to_string()).message(),
        "Serialization error: h"
    );
    assert_eq!(
        HawkOpsError::SslError("i".to_string()).message(),
        "SSL/TLS error: i"
    );
    assert_eq!(
        HawkOpsError::UnexpectedError("j".to_string()).message(),
        "Unexpected error: j"
    );
}

#[test]
fn error_helpers_build_their_variant() {
    assert!(matches!(api_error("x".to_string()), HawkOpsError::ApiError(m) if m == "x"));
    assert!(matches!(auth_error("x".to_string()), HawkOpsError::AuthError(m) if m == "x"));
    assert!(matches!(config_error("x".to_string()), HawkOpsError::ConfigError(m) if m == "x"));
    assert!(matches!(invalid_input("x".to_string()), HawkOpsError::InvalidInput(m) if m == "x"));
}
