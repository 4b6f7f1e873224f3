//! The authenticated request pipeline's decision half: the typed resource
//! records and the classification of an HTTP response into a payload to parse
//! or a classified error. Sending requests and decoding payloads into records
//! is the surrounding application's job; the mapping from status and body to
//! outcome is decided — and verified — here.

use vstd::prelude::*;
use crate::decimal::{decimal_string, spec_decimal};
use crate::error::{HawkOpsError, HawkOpsResult};

verus! {

#[derive(Debug, Clone)]
pub struct Application {
    pub id: String,
    pub name: String,
    pub organization_id: String,
    pub created_at: String,
    pub updated_at: String,
}

#[derive(Debug, Clone)]
pub struct Scan {
    pub id: String,
    pub application_id: String,
    pub status: String,
    pub created_at: String,
    pub completed_at: Option<String>,
    pub findings_count: Option<i32>,
}

#[derive(Debug, Clone)]
pub struct Team {
    pub id: String,
    pub name: String,
    pub organization_id: String,
}

#[derive(Debug, Clone)]
pub struct User {
    pub id: String,
    pub email: String,
    pub name: Option<String>,
}

/// An HTTP status code in the 2xx range counts as success.
pub fn is_success_status(status: u16) -> (r: bool)
    ensures
        r == (200 <= status < 300),
{
    200 <= status && status < 300
}

/// What one resource round trip came to.
#[derive(Debug, Clone)]
pub enum ApiOutcome {
    /// The HTTP status and the response body text; `None` when the body could
    /// not be read.
    Response { status: u16, body: Option<String> },
    /// The request could not be sent; the transport error text.
    Transport(String),
}

/// The body text used in error messages: what was read, or a placeholder when
/// the body could not be read.
pub open spec fn spec_body_text(body: Option<String>) -> Seq<char> {
    match body {
        Some(b) => b@,
        None => "No error message available"@,
    }
}

fn body_text(body: Option<String>) -> (r: String)
    ensures
        r@ == spec_body_text(body),
{
    match body {
        Some(b) => b,
        None => String::from_str("No error message available"),
    }
}

/// Classifies the response to a GET, POST or PUT: a success status (200 or
/// 201) yields the body for the caller to decode; 401 and 403 are
/// authentication failures whatever the resource; every other status is an
/// API error carrying the status and the best-effort body text.
pub fn handle_response(outcome: ApiOutcome) -> (r: HawkOpsResult<String>)
    ensures
        match outcome {
            ApiOutcome::Transport(t) => r matches Err(e) && e matches HawkOpsError::ApiError(m)
                && m@ == "Request failed: "@ + t@,
            ApiOutcome::Response { status, body } => if status == 200 || status == 201 {
                match body {
                    Some(b) => r == Ok::<String, HawkOpsError>(b),
                    None => r matches Err(e) && e matches HawkOpsError::ApiError(m) && m@
                        == "Failed to read response body"@,
                }
            } else if status == 401 {
                r matches Err(e) && e matches HawkOpsError::AuthError(m) && m@
                    == "Authentication failed"@
            } else if status == 403 {
                r matches Err(e) && e matches HawkOpsError::AuthError(m) && m@ == "Access denied"@
            } else {
                r matches Err(e) && e matches HawkOpsError::ApiError(m) && m@
                    == "Request failed with status "@ + spec_decimal(status as nat) + ": "@
                    + spec_body_text(body)
            },
        },
{
    match outcome {
        ApiOutcome::Transport(t) => {
            let mut m = String::from_str("Request failed: ");
            m.append(t.as_str());
            Err(HawkOpsError::ApiError(m))
        },
        ApiOutcome::Response { status, body } => {
            if status == 200 || status == 201 {
                match body {
                    Some(b) => Ok(b),
                    None => Err(HawkOpsError::ApiError(
                        String::from_str("Failed to read response body"),
                    )),
                }
            } else if status == 401 {
                Err(HawkOpsError::AuthError(String::from_str("Authentication failed")))
            } else if status == 403 {
                Err(HawkOpsError::AuthError(String::from_str("Access denied")))
            } else {
                let mut m = String::from_str("Request failed with status ");
                m.append(decimal_string(status as u64).as_str());
                m.append(": ");
                m.append(body_text(body).as_str());
                Err(HawkOpsError::ApiError(m))
            }
        },
    }
}

/// Classifies the response to a DELETE: 200 and 204 are success with no
/// payload; 401 and 403 are authentication failures whatever the resource;
/// every other status is an API error carrying the status and the best-effort
/// body text.
pub fn handle_delete_response(outcome: ApiOutcome) -> (r: HawkOpsResult<()>)
    ensures
        match outcome {
            ApiOutcome::Transport(t) => r matches Err(e) && e matches HawkOpsError::ApiError(m)
                && m@ == "Request failed: "@ + t@,
            ApiOutcome::Response { status, body } => if status == 200 || status == 204 {
                r is Ok
            } else if status == 401 {
                r matches Err(e) && e matches HawkOpsError::AuthError(m) && m@
                    == "Authentication failed"@
            } else if status == 403 {
                r matches Err(e) && e matches HawkOpsError::AuthError(m) && m@ == "Access denied"@
            } else {
                r matches Err(e) && e matches HawkOpsError::ApiError(m) && m@
                    == "Delete request failed with status "@ + spec_decimal(status as nat) + ": "@
                    + spec_body_text(body)
            },
        },
{
    match outcome {
        ApiOutcome::Transport(t) => {
            let mut m = String::from_str("Request failed: ");
            m.append(t.as_str());
            Err(HawkOpsError::ApiError(m))
        },
        ApiOutcome::Response { status, body } => {
            if status == 200 || status == 204 {
                Ok(())
            } else if status == 401 {
                Err(HawkOpsError::AuthError(String::from_str("Authentication failed")))
            } else if status == 403 {
                Err(HawkOpsError::AuthError(String::from_str("Access denied")))
            } else {
                let mut m = String::from_str("Delete request failed with status ");
                m.append(decimal_string(status as u64).as_str());
                m.append(": ");
                m.append(body_text(body).as_str());
                Err(HawkOpsError::ApiError(m))
            }
        },
    }
}

} // verus!
