use lazyjira::error::LazyJiraError;
use lazyjira::validators::{validate_instance, validate_ticket_key};

#[test]
fn test_validate_instance() {
    assert!(validate_instance("company.atlassian.net").is_ok());
    assert!(validate_instance("").is_err());
    assert!(validate_instance("invalid").is_err());
}

#[test]
fn test_validate_ticket_key() {
    assert!(validate_ticket_key("PROJ-123").is_ok());
    assert!(validate_ticket_key("TEST-456").is_ok());
    assert!(validate_ticket_key("").is_err());
    assert!(validate_ticket_key("PROJ123").is_err());
    assert!(validate_ticket_key("invalid").is_err());
}

#[test]
fn blank_values_are_empty_errors() {
    assert_eq!(
        validate_instance("   "),
        Err(LazyJiraError::Validation("Instance cannot be empty".to_string()))
    );
    assert_eq!(
        validate_instance("localhost"),
        Err(LazyJiraError::Validation("Instance must be a valid domain".to_string()))
    );
    assert_eq!(
        validate_ticket_key("\t\n"),
        Err(LazyJiraError::Validation("Ticket key cannot be empty".to_string()))
    );
    assert_eq!(
        validate_ticket_key("PROJ"),
        Err(LazyJiraError::Validation("Ticket key must be in format PROJECT-NUMBER".to_string()))
    );
}
