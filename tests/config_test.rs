use lazyjira::client::SearchResult;
use lazyjira::config::{CliSettings, Config, JiraCliAuth, JiraCliConfig};
use lazyjira::connection::{ConnectionStatus, ConnectionValidator};
use lazyjira::error::LazyJiraError;

fn cli_config(instance: &str, username: &str, token: Option<&str>) -> JiraCliConfig {
    JiraCliConfig {
        instance: instance.to_string(),
        auth: JiraCliAuth {
            auth_type: "api-token".to_string(),
            username: username.to_string(),
            token: token.map(|t| t.to_string()),
        },
    }
}

fn settings() -> CliSettings {
    CliSettings {
        instance: None,
        has_auth_section: false,
        auth_type: None,
        auth_username: None,
        auth_token: None,
        top_auth_type: None,
        env_api_token: None,
        env_username: None,
        env_password: None,
        cli_username: None,
    }
}

#[test]
fn test_config_default() {
    let config = Config::default();
    assert_eq!(config.ui.theme, "default");
    assert!(config.ui.show_avatars);
    assert!(!config.ui.compact_mode);
    assert_eq!(config.ui.refresh_interval, 30);
}

#[test]
fn test_config_load_nonexistent() {
    let config = Config::default();
    assert!(!config.jira.instance.is_empty() || config.jira.instance.is_empty());
}

#[test]
fn test_validate_config_success() {
    assert!(ConnectionValidator::validate_config(&cli_config("test.atlassian.net", "test@example.com", Some("token123"))).is_ok());
}

#[test]
fn test_validate_config_empty_instance() {
    assert!(ConnectionValidator::validate_config(&cli_config("", "test@example.com", Some("token123"))).is_err());
}

#[test]
fn test_validate_config_empty_username() {
    assert!(ConnectionValidator::validate_config(&cli_config("test.atlassian.net", "", Some("token123"))).is_err());
}

#[test]
fn test_validate_config_missing_token() {
    assert!(ConnectionValidator::validate_config(&cli_config("test.atlassian.net", "test@example.com", None)).is_err());
}

#[test]
fn test_validate_jira_cli_config() {
    let valid_config = cli_config("test.atlassian.net", "test@example.com", Some("token123"));
    assert!(ConnectionValidator::validate_config(&valid_config).is_ok());
}

#[test]
fn test_validate_jira_cli_config_missing_token() {
    let invalid_config = cli_config("test.atlassian.net", "test@example.com", None);
    assert!(ConnectionValidator::validate_config(&invalid_config).is_err());
}

#[test]
fn validation_failures_are_configuration_errors() {
    assert_eq!(
        ConnectionValidator::validate_config(&cli_config("", "u", None)),
        Err(LazyJiraError::Config("Jira instance URL is empty".to_string()))
    );
    let mut basic = cli_config("x.net", "u", None);
    basic.auth.auth_type = "basic".to_string();
    assert!(ConnectionValidator::validate_config(&basic).is_ok());
}

#[test]
fn test_connection_success() {
    let status = ConnectionStatus::from_test_search(&Ok(SearchResult { start_at: 0, max_results: 1, total: 0, issues: vec![] }));
    assert_eq!(status, ConnectionStatus::Connected);
    assert!(status.is_connected());
    assert!(status.error_message().is_none());
}

#[test]
fn test_connection_authentication_failed() {
    let status = ConnectionStatus::from_test_search(&Err(LazyJiraError::Authentication("Invalid credentials".to_string())));
    assert_eq!(status, ConnectionStatus::AuthenticationFailed);
    assert!(!status.is_connected());
    assert!(status.error_message().is_some());
    assert!(status.error_message().unwrap().contains("Authentication"));
}

#[test]
fn test_connection_network_error() {
    let status = ConnectionStatus::from_test_search(&Err(LazyJiraError::Api("Network error".to_string())));
    assert!(!status.is_connected());
    assert!(status.error_message().is_some());
    assert_eq!(status, ConnectionStatus::UnknownError("API error: Network error".to_string()));
}

#[test]
fn test_connection_config_error() {
    let status = ConnectionStatus::from_test_search(&Err(LazyJiraError::Config("Config error".to_string())));
    assert_eq!(status, ConnectionStatus::ConfigurationError);
    assert!(!status.is_connected());
}

#[test]
fn nested_auth_section_is_used_as_is() {
    let mut s = settings();
    s.instance = Some("  https://company.atlassian.net/jira  ".to_string());
    s.has_auth_section = true;
    s.auth_type = Some("api-token".to_string());
    s.auth_username = Some("user@example.com".to_string());
    s.auth_token = Some("abc123xyz".to_string());
    let c = s.resolve().unwrap();
    assert_eq!(c.instance, "company.atlassian.net");
    assert_eq!(c.auth.auth_type, "api-token");
    assert_eq!(c.auth.username, "user@example.com");
    assert_eq!(c.auth.token.as_deref(), Some("abc123xyz"));
    assert!(!s.needs_cli_username());

    s.auth_username = None;
    assert!(s.resolve().is_none());
}

#[test]
fn top_level_auth_type_takes_credentials_from_the_environment() {
    let mut s = settings();
    s.instance = Some("test.atlassian.net".to_string());
    s.top_auth_type = Some("basic".to_string());
    s.env_username = Some("me".to_string());
    s.env_password = Some("pw".to_string());
    let c = s.resolve().unwrap();
    assert_eq!((c.auth.auth_type.as_str(), c.auth.username.as_str(), c.auth.token.as_deref()), ("basic", "me", Some("pw")));

    s.env_api_token = Some("tok".to_string());
    s.env_username = None;
    assert!(s.needs_cli_username());
    s.cli_username = Some("from-cli".to_string());
    let c = s.resolve().unwrap();
    assert_eq!((c.auth.auth_type.as_str(), c.auth.username.as_str(), c.auth.token.as_deref()), ("api-token", "from-cli", Some("tok")));

    let mut no_instance = settings();
    no_instance.top_auth_type = Some("api-token".to_string());
    no_instance.env_username = Some("me".to_string());
    assert!(no_instance.resolve().is_none());
}

#[test]
fn instance_urls_are_reduced_to_the_host() {
    assert_eq!(lazyjira::config::normalize_instance("http://host.example/path/x"), "host.example");
    assert_eq!(lazyjira::config::normalize_instance(" plain.example "), "plain.example");
}
