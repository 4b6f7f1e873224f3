//! The auth manager: produces a valid bearer credential on demand. It answers
//! from the credential store when the stored token is still valid, plans a
//! refresh when the token has expired and a refresh token is at hand, and
//! plans a full login otherwise. The surrounding application sends the
//! planned requests and hands the outcomes back; every decision in between is
//! made — and verified — here.

use vstd::prelude::*;
use crate::config::{HawkOpsConfig, spec_with_tokens};
use crate::decimal::{decimal_string, spec_decimal};
use crate::error::{HawkOpsError, HawkOpsResult};
use crate::token::{is_token_expired, spec_token_expired_str};

verus! {

/// A successful answer from the login or refresh endpoint.
#[derive(Debug, Clone)]
pub struct AuthResponse {
    pub token: String,
    pub refresh_token: Option<String>,
    pub expires_in: Option<u64>,
}

/// A request the surrounding application is asked to send.
#[derive(Debug, Clone)]
pub enum AuthRequest {
    /// GET `url` with the header `X-ApiKey: <api_key>`.
    Login { url: String, api_key: String },
    /// GET `url` with the header `Authorization: <bearer>` (a ready value).
    Refresh { url: String, bearer: String },
}

/// What one login or refresh round trip came to.
#[derive(Debug, Clone)]
pub enum AuthOutcome {
    /// A success status whose body parsed as an auth response.
    Success(AuthResponse),
    /// A non-success HTTP status.
    Status(u16),
    /// The request could not be sent; the transport error text.
    Transport(String),
    /// A success status whose body did not parse; the parse error text.
    Parse(String),
}

/// What `get_valid_token` asks the application to do next.
#[derive(Debug, Clone)]
pub enum TokenStep {
    /// The stored token is valid: use it. No network call is needed.
    Valid(String),
    /// Send this refresh request, then apply the outcome with `after_refresh`.
    DoRefresh(AuthRequest),
    /// Send this login request, then apply the outcome with `after_login`.
    DoLogin(AuthRequest),
    /// No credentials to proceed with.
    Fail(HawkOpsError),
}

/// The next step once a refresh outcome is known.
#[derive(Debug, Clone)]
pub enum RefreshStep {
    /// The refresh succeeded: the new token, already written to the store.
    Done(String),
    /// The refresh was rejected: fall back to a full login with this request.
    FallbackLogin(AuthRequest),
    /// The refresh was rejected and no API key is stored to fall back on.
    Fail(HawkOpsError),
}

/// The shape of the `get_valid_token` decision, used to state its laws.
pub enum TokenDecision {
    /// A stored, unexpired token is answered from the store.
    FastPath,
    /// The stored token has expired and a refresh is possible.
    Refresh,
    /// No usable token; a full login is planned.
    Login,
    /// No usable token and no API key to log in with.
    MissingKey,
}

/// Which step `get_valid_token` takes on a given store at a given time.
pub open spec fn spec_token_decision(cfg: HawkOpsConfig, now: int) -> TokenDecision {
    match cfg.auth.access_token {
        Some(tok) => if !spec_token_expired_str(tok@, now) {
            TokenDecision::FastPath
        } else if cfg.auth.auto_refresh && cfg.auth.refresh_token is Some {
            TokenDecision::Refresh
        } else if cfg.api.api_key is Some {
            TokenDecision::Login
        } else {
            TokenDecision::MissingKey
        },
        None => if cfg.api.api_key is Some {
            TokenDecision::Login
        } else {
            TokenDecision::MissingKey
        },
    }
}

/// The login endpoint under a base URL.
pub fn login_url(base_url: &str) -> (r: String)
    ensures
        r@ == base_url@ + "/api/v1/auth/login"@,
{
    let mut url = String::from_str(base_url);
    url.append("/api/v1/auth/login");
    url
}

/// The refresh endpoint under a base URL.
pub fn refresh_url(base_url: &str) -> (r: String)
    ensures
        r@ == base_url@ + "/api/v1/auth/refresh"@,
{
    let mut url = String::from_str(base_url);
    url.append("/api/v1/auth/refresh");
    url
}

/// A character acceptable in an HTTP header value: horizontal tab (code 9) or
/// any character that is neither a control character (codes below 32) nor
/// DEL (code 127).
pub open spec fn header_safe_char(c: char) -> bool {
    c as u32 == 9 || (32 <= c as u32 && c as u32 != 127)
}

/// A string every character of which may stand in an HTTP header value.
pub open spec fn header_safe(s: Seq<char>) -> bool {
    forall|i: int| 0 <= i < s.len() ==> header_safe_char(s[i])
}

/// The `Authorization` header value carrying a bearer token — or an error
/// when the token holds characters that cannot stand in a header value.
pub fn get_auth_header(token: &str) -> (r: HawkOpsResult<String>)
    ensures
        header_safe(token@) ==> (r matches Ok(v) && v@ == "Bearer "@ + token@),
        !header_safe(token@) ==> (r matches Err(e) && e matches HawkOpsError::AuthError(m)
            && m@ == "Failed to create auth header: failed to parse header value"@),
{
    let n = token.unicode_len();
    let mut i: usize = 0;
    while i < n
        invariant
            n == token@.len(),
            i <= n,
            forall|k: int| 0 <= k < i ==> header_safe_char(token@[k]),
        decreases n - i,
    {
        let c = token.get_char(i);
        let code = c as u32;
        if !(code == 9 || (32 <= code && code != 127)) {
            proof {
                assert(!header_safe_char(token@[i as int]));
            }
            return Err(HawkOpsError::AuthError(
                String::from_str("Failed to create auth header: failed to parse header value"),
            ));
        }
        i += 1;
    }
    let mut v = String::from_str("Bearer ");
    v.append(token);
    Ok(v)
}

#[derive(Debug, Clone)]
pub struct AuthManager {
    pub config: HawkOpsConfig,
}

impl AuthManager {
    pub fn new(config: HawkOpsConfig) -> (r: Self)
        ensures
            r.config == config,
    {
        AuthManager { config }
    }

    /// The login request — GET on the login endpoint with the stored API key
    /// in the `X-ApiKey` header — or the error when no API key is stored.
    pub fn login_request(&self) -> (r: HawkOpsResult<AuthRequest>)
        ensures
            match self.config.api.api_key {
                Some(key) => r matches Ok(AuthRequest::Login { url, api_key })
                    && url@ == self.config.api.base_url@ + "/api/v1/auth/login"@ && api_key == key,
                None => r matches Err(e) && e matches HawkOpsError::AuthError(m)
                    && m@ == "API key not found in configuration"@,
            },
    {
        match &self.config.api.api_key {
            Some(key) => Ok(
                AuthRequest::Login {
                    url: login_url(self.config.api.base_url.as_str()),
                    api_key: key.clone(),
                },
            ),
            None => Err(HawkOpsError::AuthError(
                String::from_str("API key not found in configuration"),
            )),
        }
    }

    /// The refresh request — GET on the refresh endpoint presenting the stored
    /// refresh token as a bearer credential — or the error when none is stored.
    pub fn refresh_request(&self) -> (r: HawkOpsResult<AuthRequest>)
        ensures
            match self.config.auth.refresh_token {
                Some(rt) => r matches Ok(AuthRequest::Refresh { url, bearer })
                    && url@ == self.config.api.base_url@ + "/api/v1/auth/refresh"@ && bearer@
                    == "Bearer "@ + rt@,
                None => r matches Err(e) && e matches HawkOpsError::AuthError(m)
                    && m@ == "No refresh token available"@,
            },
    {
        match &self.config.auth.refresh_token {
            Some(rt) => {
                let mut bearer = String::from_str("Bearer ");
                bearer.append(rt.as_str());
                Ok(
                    AuthRequest::Refresh {
                        url: refresh_url(self.config.api.base_url.as_str()),
                        bearer,
                    },
                )
            },
            None => Err(HawkOpsError::AuthError(String::from_str("No refresh token available"))),
        }
    }

    /// Produces a valid bearer token or the next step towards one: the stored
    /// token when it is not expired (the fast path — no network call), else a
    /// refresh when auto-refresh is on and a refresh token is stored, else a
    /// full login, which needs the stored API key.
    pub fn get_valid_token(&self, now: i64) -> (r: TokenStep)
        ensures
            match spec_token_decision(self.config, now as int) {
                TokenDecision::FastPath => r matches TokenStep::Valid(t) && Some(t)
                    == self.config.auth.access_token,
                TokenDecision::Refresh => r matches TokenStep::DoRefresh(
                    AuthRequest::Refresh { url, bearer },
                ) && url@ == self.config.api.base_url@ + "/api/v1/auth/refresh"@ && (
                self.config.auth.refresh_token matches Some(rt) && bearer@ == "Bearer "@ + rt@),
                TokenDecision::Login => r matches TokenStep::DoLogin(
                    AuthRequest::Login { url, api_key },
                ) && url@ == self.config.api.base_url@ + "/api/v1/auth/login"@ && Some(api_key)
                    == self.config.api.api_key,
                TokenDecision::MissingKey => r matches TokenStep::Fail(e) && e matches
                    HawkOpsError::AuthError(m) && m@ == "API key not found in configuration"@,
            },
    {
        match &self.config.auth.access_token {
            Some(token) => {
                if !is_token_expired(token.as_str(), now) {
                    return TokenStep::Valid(token.clone());
                }
                if self.config.auth.auto_refresh && self.config.auth.refresh_token.is_some() {
                    return match self.refresh_request() {
                        Ok(req) => TokenStep::DoRefresh(req),
                        Err(e) => TokenStep::Fail(e),
                    };
                }
                match self.login_request() {
                    Ok(req) => TokenStep::DoLogin(req),
                    Err(e) => TokenStep::Fail(e),
                }
            },
            None => match self.login_request() {
                Ok(req) => TokenStep::DoLogin(req),
                Err(e) => TokenStep::Fail(e),
            },
        }
    }

    /// Applies the outcome of a login round trip. On success the new token
    /// pair is written to the credential store and the token returned; on any
    /// failure the store is left untouched and an authentication error carries
    /// the status, transport or parse detail.
    pub fn after_login(&mut self, outcome: AuthOutcome) -> (r: HawkOpsResult<String>)
        ensures
            match outcome {
                AuthOutcome::Success(resp) => r matches Ok(t) && t == resp.token
                    && final(self).config
                    == spec_with_tokens(old(self).config, resp.token, resp.refresh_token),
                AuthOutcome::Status(s) => *final(self) == *old(self) && (r matches Err(e)
                    && e matches HawkOpsError::AuthError(m) && m@ == "Authentication failed: "@
                    + spec_decimal(s as nat)),
                AuthOutcome::Transport(t) => *final(self) == *old(self) && (r matches Err(e)
                    && e matches HawkOpsError::AuthError(m) && m@ == "Failed to authenticate: "@
                    + t@),
                AuthOutcome::Parse(t) => *final(self) == *old(self) && (r matches Err(e)
                    && e matches HawkOpsError::AuthError(m) && m@
                    == "Failed to parse auth response: "@ + t@),
            },
    {
        match outcome {
            AuthOutcome::Success(resp) => {
                let token = resp.token.clone();
                let _ = self.config.update_auth_tokens(resp.token, resp.refresh_token);
                Ok(token)
            },
            AuthOutcome::Status(s) => {
                let mut m = String::from_str("Authentication failed: ");
                m.append(decimal_string(s as u64).as_str());
                Err(HawkOpsError::AuthError(m))
            },
            AuthOutcome::Transport(t) => {
                let mut m = String::from_str("Failed to authenticate: ");
                m.append(t.as_str());
                Err(HawkOpsError::AuthError(m))
            },
            AuthOutcome::Parse(t) => {
                let mut m = String::from_str("Failed to parse auth response: ");
                m.append(t.as_str());
                Err(HawkOpsError::AuthError(m))
            },
        }
    }

    /// Applies the outcome of a refresh round trip. On success the new token
    /// pair is written to the store; on any rejection the store is left
    /// untouched and the manager falls back to a full login — which still
    /// needs the stored API key.
    pub fn after_refresh(&mut self, outcome: AuthOutcome) -> (r: RefreshStep)
        ensures
            match outcome {
                AuthOutcome::Success(resp) => r matches RefreshStep::Done(t) && t == resp.token
                    && final(self).config
                    == spec_with_tokens(old(self).config, resp.token, resp.refresh_token),
                _ => *final(self) == *old(self) && (match old(self).config.api.api_key {
                    Some(key) => r matches RefreshStep::FallbackLogin(
                        AuthRequest::Login { url, api_key },
                    ) && url@ == old(self).config.api.base_url@ + "/api/v1/auth/login"@ && api_key
                        == key,
                    None => r matches RefreshStep::Fail(e) && e matches HawkOpsError::AuthError(m)
                        && m@ == "API key not found in configuration"@,
                }),
            },
    {
        match outcome {
            AuthOutcome::Success(resp) => {
                let token = resp.token.clone();
                let _ = self.config.update_auth_tokens(resp.token, resp.refresh_token);
                RefreshStep::Done(token)
            },
            _ => match self.login_request() {
                Ok(req) => RefreshStep::FallbackLogin(req),
                Err(e) => RefreshStep::Fail(e),
            },
        }
    }
}

/// The manager never presents a token it has classified as expired: the
/// stored token is answered back exactly when it is stored and not expired at
/// the time of the check; in every other case the manager plans a round trip
/// or fails.
pub proof fn lemma_expired_token_never_used(cfg: HawkOpsConfig, now: int)
    ensures
        spec_token_decision(cfg, now) is FastPath <==> (cfg.auth.access_token matches Some(t)
            && !spec_token_expired_str(t@, now)),
{
}

/// Idempotence of the fast path: with a stored token that is not expired, the
/// manager answers from the store and leaves it untouched, so asking twice in
/// succession makes the same decision both times — no network request is ever
/// planned for a valid token.
pub proof fn lemma_get_valid_token_idempotent(cfg: HawkOpsConfig, now1: int, now2: int)
    requires
        cfg.auth.access_token matches Some(t) && !spec_token_expired_str(t@, now1),
        cfg.auth.access_token matches Some(t) && !spec_token_expired_str(t@, now2),
    ensures
        spec_token_decision(cfg, now1) is FastPath,
        spec_token_decision(cfg, now2) is FastPath,
{
}

/// Round trip: once a successful login has been applied to the store, asking
/// for a valid token — at any time at which the freshly issued token has not
/// yet expired — is answered from the store with that same token string, with
/// no further request. A server may hand out a token that is already expired
/// at the time of the check; the fast path cannot apply to such a response,
/// so the hypothesis excludes it.
pub proof fn lemma_authenticate_then_get_valid_token(
    cfg: HawkOpsConfig,
    resp: AuthResponse,
    now: int,
)
    requires
        !spec_token_expired_str(resp.token@, now),
    ensures
        spec_token_decision(spec_with_tokens(cfg, resp.token, resp.refresh_token), now)
            is FastPath,
        spec_with_tokens(cfg, resp.token, resp.refresh_token).auth.access_token == Some(
            resp.token,
        ),
{
}

/// Refresh-then-fallback: with an expired stored token, auto-refresh on, a
/// refresh token present and an API key stored, the manager first plans a
/// refresh; a rejected refresh leaves the store untouched (the contract of
/// `after_refresh`), on which the fallback is a full login; and applying the
/// login's success installs exactly the fresh token.
pub proof fn lemma_refresh_falls_back_to_login(cfg: HawkOpsConfig, now: int, resp: AuthResponse)
    requires
        cfg.auth.access_token matches Some(t) && spec_token_expired_str(t@, now),
        cfg.auth.auto_refresh,
        cfg.auth.refresh_token is Some,
        cfg.api.api_key is Some,
    ensures
        spec_token_decision(cfg, now) is Refresh,
        spec_with_tokens(cfg, resp.token, resp.refresh_token).auth.access_token == Some(
            resp.token,
        ),
{
}

} // verus!
