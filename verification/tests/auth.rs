use base64::Engine;
use hawkops::auth::{
    get_auth_header, login_url, refresh_url, AuthManager, AuthOutcome, AuthRequest, AuthResponse,
    RefreshStep, TokenStep,
};
use hawkops::config::{ApiConfig, AuthConfig, HawkOpsConfig, LoggingConfig};
use hawkops::error::HawkOpsError;

fn b64url(payload: &[u8]) -> String {
    base64::engine::general_purpose::URL_SAFE_NO_PAD.encode(payload)
}

fn token_with_exp(exp: i64) -> String {
    let claim = format!("{{\"exp\":{exp}}}");
    format!("{}.{}.{}", b64url(b"{\"alg\":\"none\"}"), b64url(claim.as_bytes()), b64url(b"sig"))
}

fn config_with(
    api_key: Option<&str>,
    access_token: Option<String>,
    refresh_token: Option<&str>,
    auto_refresh: bool,
) -> HawkOpsConfig {
    HawkOpsConfig {
        api: ApiConfig {
            base_url: "https://api.example.test".to_string(),
            api_key: api_key.map(|k| k.to_string()),
            timeout_seconds: 30,
        },
        auth: AuthConfig {
            access_token,
            refresh_token: refresh_token.map(|t| t.to_string()),
            auto_refresh,
        },
        logging: LoggingConfig { level: "info".to_string(), file: None },
    }
}

const NOW: i64 = 1_700_000_000;

#[test]
fn fast_path_returns_stored_token() {
    let token = token_with_exp(NOW + 3600);
    let mgr = AuthManager::new(config_with(Some("key"), Some(token.clone()), None, true));
    match mgr.get_valid_token(NOW) {
        TokenStep::Valid(t) => assert_eq!(t, token),
        other => panic!("expected the stored token, got {other:?}"),
    }
}

#[test]
fn fast_path_is_idempotent() {
    // An already-valid token is answered from the store both times; no request
    // is planned by either call and the store is untouched in between.
    let token = token_with_exp(NOW + 3600);
    let mgr = AuthManager::new(config_with(Some("key"), Some(token.clone()), None, true));
    let first = match mgr.get_valid_token(NOW) {
        TokenStep::Valid(t) => t,
        other => panic!("expected the stored token, got {other:?}"),
    };
    let second = match mgr.get_valid_token(NOW) {
        TokenStep::Valid(t) => t,
        other => panic!("expected the stored token, got {other:?}"),
    };
    assert_eq!(first, second);
    assert_eq!(mgr.config.auth.access_token, Some(token));
}

#[test]
fn expired_token_with_refresh_plans_refresh() {
    let token = token_with_exp(NOW - 10);
    let mgr = AuthManager::new(config_with(Some("key"), Some(token), Some("rtok"), true));
    match mgr.get_valid_token(NOW) {
        TokenStep::DoRefresh(AuthRequest::Refresh { url, bearer }) => {
            assert_eq!(url, "https://api.example.test/api/v1/auth/refresh");
            assert_eq!(bearer, "Bearer rtok");
        }
        other => panic!("expected a refresh request, got {other:?}"),
    }
}

#[test]
fn expired_token_without_auto_refresh_plans_login() {
    let token = token_with_exp(NOW - 10);
    let mgr = AuthManager::new(config_with(Some("key"), Some(token), Some("rtok"), false));
    match mgr.get_valid_token(NOW) {
        TokenStep::DoLogin(AuthRequest::Login { url, api_key }) => {
            assert_eq!(url, "https://api.example.test/api/v1/auth/login");
            assert_eq!(api_key, "key");
        }
        other => panic!("expected a login request, got {other:?}"),
    }
}

#[test]
fn no_token_plans_login() {
    let mgr = AuthManager::new(config_with(Some("key"), None, None, true));
    match mgr.get_valid_token(NOW) {
        TokenStep::DoLogin(AuthRequest::Login { url, api_key }) => {
            assert_eq!(url, "https://api.example.test/api/v1/auth/login");
            assert_eq!(api_key, "key");
        }
        other => panic!("expected a login request, got {other:?}"),
    }
}

#[test]
fn no_token_and_no_api_key_fails() {
    let mgr = AuthManager::new(config_with(None, None, None, true));
    match mgr.get_valid_token(NOW) {
        TokenStep::Fail(HawkOpsError::AuthError(m)) => {
            assert_eq!(m, "API key not found in configuration");
        }
        other => panic!("expected a failure, got {other:?}"),
    }
}

#[test]
fn login_success_roundtrip_returns_same_token() {
    // A successful authenticate followed immediately by get_valid_token hands
    // back the very token the server issued, with no further request planned.
    let mut mgr = AuthManager::new(config_with(Some("key"), None, None, true));
    let fresh = token_with_exp(NOW + 3600);
    let outcome = AuthOutcome::Success(AuthResponse {
        token: fresh.clone(),
        refresh_token: Some("new-refresh".to_string()),
        expires_in: Some(3600),
    });
    let returned = mgr.after_login(outcome).expect("login success must yield the token");
    assert_eq!(returned, fresh);
    assert_eq!(mgr.config.auth.access_token, Some(fresh.clone()));
    assert_eq!(mgr.config.auth.refresh_token, Some("new-refresh".to_string()));
    match mgr.get_valid_token(NOW) {
        TokenStep::Valid(t) => assert_eq!(t, fresh),
        other => panic!("expected the fresh token, got {other:?}"),
    }
}

#[test]
fn login_401_yields_auth_error_and_no_mutation() {
    let mut mgr = AuthManager::new(config_with(Some("key"), None, Some("old-rt"), true));
    let before = mgr.config.clone();
    match mgr.after_login(AuthOutcome::Status(401)) {
        Err(HawkOpsError::AuthError(m)) => {
            assert!(m.contains("401"), "message should carry the status: {m}");
            assert_eq!(m, "Authentication failed: 401");
        }
        other => panic!("expected an authentication error, got {other:?}"),
    }
    assert_eq!(mgr.config.auth.access_token, before.auth.access_token);
    assert_eq!(mgr.config.auth.refresh_token, before.auth.refresh_token);
    assert_eq!(mgr.config.api.api_key, before.api.api_key);
}

#[test]
fn login_transport_failure_yields_auth_error() {
    let mut mgr = AuthManager::new(config_with(Some("key"), None, None, true));
    match mgr.after_login(AuthOutcome::Transport("connection refused".to_string())) {
        Err(HawkOpsError::AuthError(m)) => {
            assert_eq!(m, "Failed to authenticate: connection refused");
        }
        other => panic!("expected an authentication error, got {other:?}"),
    }
}

#[test]
fn login_parse_failure_yields_auth_error() {
    let mut mgr = AuthManager::new(config_with(Some("key"), None, None, true));
    match mgr.after_login(AuthOutcome::Parse("expected value".to_string())) {
        Err(HawkOpsError::AuthError(m)) => {
            assert_eq!(m, "Failed to parse auth response: expected value");
        }
        other => panic!("expected an authentication error, got {other:?}"),
    }
}

#[test]
fn rejected_refresh_falls_back_to_login_and_succeeds() {
    // Expired access token, a refresh token the server rejects, a valid API
    // key: the manager plans a refresh, falls back to a full login on the
    // rejection, and the login's success installs the fresh token.
    let expired = token_with_exp(NOW - 100);
    let mut mgr =
        AuthManager::new(config_with(Some("key"), Some(expired), Some("stale-rt"), true));
    match mgr.get_valid_token(NOW) {
        TokenStep::DoRefresh(AuthRequest::Refresh { bearer, .. }) => {
            assert_eq!(bearer, "Bearer stale-rt");
        }
        other => panic!("expected a refresh request, got {other:?}"),
    }
    let fallback = match mgr.after_refresh(AuthOutcome::Status(401)) {
        RefreshStep::FallbackLogin(AuthRequest::Login { url, api_key }) => {
            assert_eq!(url, "https://api.example.test/api/v1/auth/login");
            assert_eq!(api_key, "key");
            AuthOutcome::Success(AuthResponse {
                token: token_with_exp(NOW + 3600),
                refresh_token: Some("fresh-rt".to_string()),
                expires_in: None,
            })
        }
        other => panic!("expected a fallback login, got {other:?}"),
    };
    let token = mgr.after_login(fallback).expect("fallback login success must yield the token");
    assert_eq!(mgr.config.auth.access_token, Some(token));
    assert_eq!(mgr.config.auth.refresh_token, Some("fresh-rt".to_string()));
}

#[test]
fn rejected_refresh_without_api_key_fails() {
    let expired = token_with_exp(NOW - 100);
    let mut mgr = AuthManager::new(config_with(None, Some(expired), Some("rt"), true));
    match mgr.after_refresh(AuthOutcome::Transport("timed out".to_string())) {
        RefreshStep::Fail(HawkOpsError::AuthError(m)) => {
            assert_eq!(m, "API key not found in configuration");
        }
        other => panic!("expected a failure, got {other:?}"),
    }
}

#[test]
fn successful_refresh_installs_tokens() {
    let expired = token_with_exp(NOW - 100);
    let fresh = token_with_exp(NOW + 3600);
    let mut mgr = AuthManager::new(config_with(Some("key"), Some(expired), Some("rt"), true));
    match mgr.after_refresh(AuthOutcome::Success(AuthResponse {
        token: fresh.clone(),
        refresh_token: None,
        expires_in: Some(600),
    })) {
        RefreshStep::Done(t) => assert_eq!(t, fresh),
        other => panic!("expected the refreshed token, got {other:?}"),
    }
    assert_eq!(mgr.config.auth.access_token, Some(fresh));
    assert_eq!(mgr.config.auth.refresh_token, None);
}

#[test]
fn refresh_request_requires_refresh_token() {
    let mgr = AuthManager::new(config_with(Some("key"), None, None, true));
    match mgr.refresh_request() {
        Err(HawkOpsError::AuthError(m)) => assert_eq!(m, "No refresh token available"),
        other => panic!("expected an error, got {other:?}"),
    }
}

#[test]
fn login_request_carries_api_key_header_value() {
    let mgr = AuthManager::new(config_with(Some("secret-key"), None, None, true));
    match mgr.login_request() {
        Ok(AuthRequest::Login { url, api_key }) => {
            assert_eq!(url, "https://api.example.test/api/v1/auth/login");
            assert_eq!(api_key, "secret-key");
        }
        other => panic!("expected a login request, got {other:?}"),
    }
}

#[test]
fn auth_urls_compose() {
    assert_eq!(login_url("https://h"), "https://h/api/v1/auth/login");
    assert_eq!(refresh_url("https://h"), "https://h/api/v1/auth/refresh");
}

#[test]
fn auth_header_for_ordinary_token() {
    let header = get_auth_header("abc.def.ghi").expect("plain token must be accepted");
    assert_eq!(header, "Bearer abc.def.ghi");
}

#[test]
fn auth_header_rejects_control_characters() {
    match get_auth_header("bad\ntoken") {
        Err(HawkOpsError::AuthError(m)) => {
            assert_eq!(m, "Failed to create auth header: failed to parse header value");
        }
        other => panic!("expected an error, got {other:?}"),
    }
    assert!(get_auth_header("del\u{7f}char").is_err());
    assert!(get_auth_header("tab\tis fine").is_ok());
}
