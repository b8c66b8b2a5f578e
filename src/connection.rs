//! The outcome of checking the connection to the tracker.
use vstd::prelude::*;
use crate::client::SearchResult;
use crate::config::JiraCliConfig;
use crate::error::LazyJiraError;
use crate::text::str_eq;

verus! {

/// How a connection attempt ended.
#[derive(Debug, Clone, PartialEq, Eq)]
pub enum ConnectionStatus {
    Connected,
    AuthenticationFailed,
    NetworkError,
    ConfigurationError,
    UnknownError(String),
}

impl ConnectionStatus {
    pub fn is_connected(&self) -> (r: bool)
        ensures
            r == (*self is Connected),
    {
        match self {
            ConnectionStatus::Connected => true,
            _ => false,
        }
    }

    /// What to tell the user; nothing when connected.
    pub fn error_message(&self) -> (r: Option<String>)
        ensures
            r is None <==> *self is Connected,
            *self is AuthenticationFailed ==> (r matches Some(m) && m@ == "Authentication failed. Please check your credentials."@),
            *self is NetworkError ==> (r matches Some(m) && m@ == "Network error. Please check your internet connection."@),
            *self is ConfigurationError ==> (r matches Some(m) && m@ == "Configuration error. Please check your jira-cli config."@),
            self matches ConnectionStatus::UnknownError(msg) ==> (r matches Some(m) && m@ == msg@),
    {
        match self {
            ConnectionStatus::Connected => None,
            ConnectionStatus::AuthenticationFailed => Some(
                String::from_str("Authentication failed. Please check your credentials."),
            ),
            ConnectionStatus::NetworkError => Some(
                String::from_str("Network error. Please check your internet connection."),
            ),
            ConnectionStatus::ConfigurationError => Some(
                String::from_str("Configuration error. Please check your jira-cli config."),
            ),
            ConnectionStatus::UnknownError(msg) => Some(msg.clone()),
        }
    }

    /// The status a lightweight test search ended in: success is a connection;
    /// authentication, network and configuration errors have their own
    /// statuses; any other error is unknown and carries the error's message.
    pub fn from_test_search(r: &Result<SearchResult, LazyJiraError>) -> (s: Self)
        ensures
            match *r {
                Ok(_) => s is Connected,
                Err(LazyJiraError::Authentication(_)) => s is AuthenticationFailed,
                Err(LazyJiraError::Network(_)) => s is NetworkError,
                Err(LazyJiraError::Config(_)) => s is ConfigurationError,
                Err(e) => s matches ConnectionStatus::UnknownError(m) && m@ == e.prefix_spec()
                    + e.detail_spec(),
            },
    {
        match r {
            Ok(_) => ConnectionStatus::Connected,
            Err(LazyJiraError::Authentication(_)) => ConnectionStatus::AuthenticationFailed,
            Err(LazyJiraError::Network(_)) => ConnectionStatus::NetworkError,
            Err(LazyJiraError::Config(_)) => ConnectionStatus::ConfigurationError,
            Err(e) => ConnectionStatus::UnknownError(e.message()),
        }
    }
}

/// Why a configuration is unusable, if it is.
pub open spec fn config_problem(c: JiraCliConfig) -> Option<Seq<char>> {
    if c.instance@.len() == 0 {
        Some("Jira instance URL is empty"@)
    } else if c.auth.username@.len() == 0 {
        Some("Username is empty"@)
    } else if c.auth.auth_type@ == "api-token"@ && c.auth.token is None {
        Some("API token is required for api-token authentication"@)
    } else {
        None
    }
}

/// Checks a command-line tool configuration before connecting.
pub struct ConnectionValidator;

impl ConnectionValidator {
    /// An instance and a user name are required, and a token for token
    /// authentication; a failure is a configuration error saying which.
    pub fn validate_config(config: &JiraCliConfig) -> (r: Result<(), LazyJiraError>)
        ensures
            r is Ok <==> config_problem(*config) is None,
            r matches Err(e) ==> e is Config && config_problem(*config) == Some(e.detail_spec()),
    {
        if config.instance.unicode_len() == 0 {
            return Err(LazyJiraError::Config(String::from_str("Jira instance URL is empty")));
        }
        if config.auth.username.unicode_len() == 0 {
            return Err(LazyJiraError::Config(String::from_str("Username is empty")));
        }
        if str_eq(config.auth.auth_type.as_str(), "api-token") && config.auth.token.is_none() {
            return Err(
                LazyJiraError::Config(
                    String::from_str("API token is required for api-token authentication"),
                ),
            );
        }
        Ok(())
    }
}

} // verus!
