//! Error taxonomy of the client: one variant per failure class, each carrying
//! a human-readable message. `message` renders the conventional prefixed text.

use vstd::prelude::*;

verus! {

#[derive(Debug, Clone)]
pub enum HawkOpsError {
    ApiError(String),
    AuthError(String),
    ConfigError(String),
    HttpError(String),
    IoError(String),
    InvalidInput(String),
    MissingField(String),
    SerializationError(String),
    SslError(String),
    UnexpectedError(String),
}

pub type HawkOpsResult<T> = Result<T, HawkOpsError>;

impl HawkOpsError {
    /// The rendered message: a fixed prefix naming the failure class,
    /// followed by the carried detail text.
    pub open spec fn spec_message(&self) -> Seq<char> {
        match self {
            HawkOpsError::ApiError(m) => "API error: "@ + m@,
            HawkOpsError::AuthError(m) => "Authentication error: "@ + m@,
            HawkOpsError::ConfigError(m) => "Configuration error: "@ + m@,
            HawkOpsError::HttpError(m) => "HTTP error: "@ + m@,
            HawkOpsError::IoError(m) => "I/O error: "@ + m@,
            HawkOpsError::InvalidInput(m) => "Invalid input: "@ + m@,
            HawkOpsError::MissingField(m) => "Missing required field: "@ + m@,
            HawkOpsError::SerializationError(m) => "Serialization error: "@ + m@,
            HawkOpsError::SslError(m) => "SSL/TLS error: "@ + m@,
            HawkOpsError::UnexpectedError(m) => "Unexpected error: "@ + m@,
        }
    }

    pub fn message(&self) -> (r: String)
        ensures
            r@ == self.spec_message(),
    {
        let (prefix, detail): (&str, &String) = match self {
            HawkOpsError::ApiError(m) => ("API error: ", m),
            HawkOpsError::AuthError(m) => ("Authentication error: ", m),
            HawkOpsError::ConfigError(m) => ("Configuration error: ", m),
            HawkOpsError::HttpError(m) => ("HTTP error: ", m),
            HawkOpsError::IoError(m) => ("I/O error: ", m),
            HawkOpsError::InvalidInput(m) => ("Invalid input: ", m),
            HawkOpsError::MissingField(m) => ("Missing required field: ", m),
            HawkOpsError::SerializationError(m) => ("Serialization error: ", m),
            HawkOpsError::SslError(m) => ("SSL/TLS error: ", m),
            HawkOpsError::UnexpectedError(m) => ("Unexpected error: ", m),
        };
        let mut out = String::from_str(prefix);
        out.append(detail.as_str());
        out
    }
}

pub fn api_error(message: String) -> (r: HawkOpsError)
    ensures
        r == HawkOpsError::ApiError(message),
{
    HawkOpsError::ApiError(message)
}

pub fn auth_error(message: String) -> (r: HawkOpsError)
    ensures
        r == HawkOpsError::AuthError(message),
{
    HawkOpsError::AuthError(message)
}

pub fn config_error(message: String) -> (r: HawkOpsError)
    ensures
        r == HawkOpsError::ConfigError(message),
{
    HawkOpsError::ConfigError(message)
}

pub fn invalid_input(message: String) -> (r: HawkOpsError)
    ensures
        r == HawkOpsError::InvalidInput(message),
{
    HawkOpsError::InvalidInput(message)
}

} // verus!
