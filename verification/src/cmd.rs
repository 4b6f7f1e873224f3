//! The command model: what the command line can ask for, and which resource
//! endpoint each request addresses. Parsing argv into these values is the
//! surrounding application's job; the endpoint construction is verified here.

use vstd::prelude::*;
use crate::decimal::{decimal_string, spec_decimal};

verus! {

#[derive(Debug, Clone)]
pub struct Cli {
    pub command: Commands,
    pub log_level: String,
}

#[derive(Debug, Clone)]
pub enum Commands {
    /// Show or update the stored settings.
    Config { api_key: Option<String> },
    /// List applications, optionally scoped to one organization.
    Apps { org_id: Option<String> },
    /// Manage scans.
    Scan { command: ScanCommands },
    /// Manage teams.
    Team { command: TeamCommands },
    /// Manage users.
    User { command: UserCommands },
}

#[derive(Debug, Clone)]
pub enum ScanCommands {
    List { app_id: String, limit: u32 },
    Get { scan_id: String },
    Delete { scan_id: String },
}

#[derive(Debug, Clone)]
pub enum TeamCommands {
    List { org_id: Option<String> },
    Get { team_id: String },
    Create { org_id: String, name: String },
}

#[derive(Debug, Clone)]
pub enum UserCommands {
    List { org_id: Option<String> },
    Get { user_id: String },
}

/// The applications listing endpoint, scoped to one organization when an
/// organization id is given.
pub fn applications_endpoint(base_url: &str, org_id: Option<&str>) -> (r: String)
    ensures
        match org_id {
            Some(id) => r@ == base_url@ + "/api/v1/orgs/"@ + id@ + "/applications"@,
            None => r@ == base_url@ + "/api/v1/applications"@,
        },
{
    let mut r = String::from_str(base_url);
    match org_id {
        Some(id) => {
            r.append("/api/v1/orgs/");
            r.append(id);
            r.append("/applications");
        },
        None => {
            r.append("/api/v1/applications");
        },
    }
    r
}

impl ScanCommands {
    /// The endpoint this subcommand addresses under a base URL.
    pub fn endpoint(&self, base_url: &str) -> (r: String)
        ensures
            match self {
                ScanCommands::List { app_id, limit } => r@ == base_url@ + "/api/v1/applications/"@
                    + app_id@ + "/scans?limit="@ + spec_decimal(*limit as nat),
                ScanCommands::Get { scan_id } => r@ == base_url@ + "/api/v1/scans/"@ + scan_id@,
                ScanCommands::Delete { scan_id } => r@ == base_url@ + "/api/v1/scans/"@
                    + scan_id@,
            },
    {
        let mut r = String::from_str(base_url);
        match self {
            ScanCommands::List { app_id, limit } => {
                r.append("/api/v1/applications/");
                r.append(app_id.as_str());
                r.append("/scans?limit=");
                r.append(decimal_string(*limit as u64).as_str());
            },
            ScanCommands::Get { scan_id } => {
                r.append("/api/v1/scans/");
                r.append(scan_id.as_str());
            },
            ScanCommands::Delete { scan_id } => {
                r.append("/api/v1/scans/");
                r.append(scan_id.as_str());
            },
        }
        r
    }
}

impl TeamCommands {
    /// The endpoint this subcommand addresses under a base URL.
    pub fn endpoint(&self, base_url: &str) -> (r: String)
        ensures
            match self {
                TeamCommands::List { org_id } => match org_id {
                    Some(id) => r@ == base_url@ + "/api/v1/orgs/"@ + id@ + "/teams"@,
                    None => r@ == base_url@ + "/api/v1/teams"@,
                },
                TeamCommands::Get { team_id } => r@ == base_url@ + "/api/v1/teams/"@ + team_id@,
                TeamCommands::Create { org_id, name } => r@ == base_url@ + "/api/v1/orgs/"@
                    + org_id@ + "/teams"@,
            },
    {
        let mut r = String::from_str(base_url);
        match self {
            TeamCommands::List { org_id } => {
                match org_id {
                    Some(id) => {
                        r.append("/api/v1/orgs/");
                        r.append(id.as_str());
                        r.append("/teams");
                    },
                    None => {
                        r.append("/api/v1/teams");
                    },
                }
            },
            TeamCommands::Get { team_id } => {
                r.append("/api/v1/teams/");
                r.append(team_id.as_str());
            },
            TeamCommands::Create { org_id, name: _ } => {
                r.append("/api/v1/orgs/");
                r.append(org_id.as_str());
                r.append("/teams");
            },
        }
        r
    }
}

impl UserCommands {
    /// The endpoint this subcommand addresses under a base URL.
    pub fn endpoint(&self, base_url: &str) -> (r: String)
        ensures
            match self {
                UserCommands::List { org_id } => match org_id {
                    Some(id) => r@ == base_url@ + "/api/v1/orgs/"@ + id@ + "/users"@,
                    None => r@ == base_url@ + "/api/v1/users"@,
                },
                UserCommands::Get { user_id } => r@ == base_url@ + "/api/v1/users/"@ + user_id@,
            },
    {
        let mut r = String::from_str(base_url);
        match self {
            UserCommands::List { org_id } => {
                match org_id {
                    Some(id) => {
                        r.append("/api/v1/orgs/");
                        r.append(id.as_str());
                        r.append("/users");
                    },
                    None => {
                        r.append("/api/v1/users");
                    },
                }
            },
            UserCommands::Get { user_id } => {
                r.append("/api/v1/users/");
                r.append(user_id.as_str());
            },
        }
        r
    }
}

} // verus!
