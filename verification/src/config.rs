//! Configuration state: the API endpoint settings, the credential store
//! (access token, refresh token, auto-refresh switch) and logging preferences.
//! Reading and writing the backing file is the surrounding application's job;
//! this module owns the values and the one mutation the auth flow performs.

use vstd::prelude::*;
use crate::error::HawkOpsResult;

verus! {

#[derive(Debug, Clone)]
pub struct ApiConfig {
    pub base_url: String,
    pub api_key: Option<String>,
    pub timeout_seconds: u64,
}

#[derive(Debug, Clone)]
pub struct AuthConfig {
    pub access_token: Option<String>,
    pub refresh_token: Option<String>,
    pub auto_refresh: bool,
}

#[derive(Debug, Clone)]
pub struct LoggingConfig {
    pub level: String,
    pub file: Option<String>,
}

#[derive(Debug, Clone)]
pub struct HawkOpsConfig {
    pub api: ApiConfig,
    pub auth: AuthConfig,
    pub logging: LoggingConfig,
}

pub fn default_api_url() -> (r: String)
    ensures
        r@ == "https://api.stackhawk.com"@,
{
    String::from_str("https://api.stackhawk.com")
}

pub fn default_timeout() -> (r: u64)
    ensures
        r == 30,
{
    30
}

pub fn default_token_refresh() -> (r: bool)
    ensures
        r,
{
    true
}

pub fn default_log_level() -> (r: String)
    ensures
        r@ == "info"@,
{
    String::from_str("info")
}

impl Default for ApiConfig {
    fn default() -> (r: Self)
        ensures
            r.base_url@ == "https://api.stackhawk.com"@,
            r.api_key is None,
            r.timeout_seconds == 30,
    {
        ApiConfig { base_url: default_api_url(), api_key: None, timeout_seconds: default_timeout() }
    }
}

impl Default for AuthConfig {
    fn default() -> (r: Self)
        ensures
            r.access_token is None,
            r.refresh_token is None,
            r.auto_refresh,
    {
        AuthConfig { access_token: None, refresh_token: None, auto_refresh: default_token_refresh() }
    }
}

impl Default for LoggingConfig {
    fn default() -> (r: Self)
        ensures
            r.level@ == "info"@,
            r.file is None,
    {
        LoggingConfig { level: default_log_level(), file: None }
    }
}

impl Default for HawkOpsConfig {
    fn default() -> (r: Self)
        ensures
            r.api.base_url@ == "https://api.stackhawk.com"@,
            r.api.api_key is None,
            r.api.timeout_seconds == 30,
            r.auth.access_token is None,
            r.auth.refresh_token is None,
            r.auth.auto_refresh,
            r.logging.level@ == "info"@,
            r.logging.file is None,
    {
        HawkOpsConfig {
            api: ApiConfig::default(),
            auth: AuthConfig::default(),
            logging: LoggingConfig::default(),
        }
    }
}

/// Prepares local state for first use. The present configuration layout
/// needs nothing set up ahead of time, so this always succeeds.
pub fn _ops_init() -> (r: Result<(), String>)
    ensures
        r is Ok,
{
    Ok(())
}

/// The configuration after a successful token exchange: the new access token
/// installed, the refresh token replaced by whatever the server handed back,
/// everything else untouched.
pub open spec fn spec_with_tokens(
    cfg: HawkOpsConfig,
    access: String,
    refresh: Option<String>,
) -> HawkOpsConfig {
    HawkOpsConfig {
        auth: AuthConfig {
            access_token: Some(access),
            refresh_token: refresh,
            auto_refresh: cfg.auth.auto_refresh,
        },
        ..cfg
    }
}

impl HawkOpsConfig {
    /// Installs a freshly issued token pair in the credential store. The
    /// caller persists the updated configuration afterwards; persisting the
    /// same configuration twice yields the same durable state, so this
    /// mutation is safe to repeat.
    pub fn update_auth_tokens(
        &mut self,
        access_token: String,
        refresh_token: Option<String>,
    ) -> (r: HawkOpsResult<()>)
        ensures
            r is Ok,
            *final(self) == spec_with_tokens(*old(self), access_token, refresh_token),
    {
        self.auth.access_token = Some(access_token);
        self.auth.refresh_token = refresh_token;
        Ok(())
    }
}

} // verus!
