//! Verified core of a command-line client for a security-scanning platform:
//! bearer-token lifecycle management (expiry checking, refresh-or-reauthenticate
//! decisions) and the classification of HTTP responses for the authenticated
//! request pipeline. Network and file I/O live outside this library; the
//! functions here take the outside world's answers as plain values and decide
//! every step in between under contract.

pub mod api;
pub mod auth;
pub mod cmd;
pub mod config;
pub mod decimal;
pub mod error;
pub mod token;

pub use api::{Application, Scan, Team, User};
pub use auth::{AuthManager, AuthResponse};
pub use cmd::{Cli, Commands};
pub use config::HawkOpsConfig;
pub use error::{HawkOpsError, HawkOpsResult};
