use lazyjira::client::CreateIssueData;
use lazyjira::error::LazyJiraError;
use lazyjira::models::{Priority, Status, StatusCategory, Ticket, User};
use lazyjira::services::{check_new_ticket, FilterService};
use lazyjira::time::Timestamp;

fn create_test_tickets() -> Vec<Ticket> {
    let make = |id: &str, key: &str, summary: &str, cat: StatusCategory, user: &str, p: Priority| Ticket {
        id: id.to_string(),
        key: key.to_string(),
        summary: summary.to_string(),
        status: Status { id: "1".to_string(), name: "s".to_string(), category: cat },
        assignee: Some(User::new(user.to_string(), user.to_string())),
        priority: p,
        issue_type: "Task".to_string(),
        project_key: "PROJ".to_string(),
        description: None,
        created: Timestamp { millis: 0 },
        updated: Timestamp { millis: 0 },
    };
    vec![
        make("1", "PROJ-1", "Todo ticket", StatusCategory::ToDo, "user1", Priority::Medium),
        make("2", "PROJ-2", "In progress ticket", StatusCategory::InProgress, "user2", Priority::High),
        make("3", "PROJ-3", "Done ticket", StatusCategory::Done, "user1", Priority::Low),
    ]
}

#[test]
fn test_filter_by_status_category() {
    let tickets = create_test_tickets();
    let todo_tickets = FilterService::filter_by_status_category(&tickets, StatusCategory::ToDo);
    assert_eq!(todo_tickets.len(), 1);
    assert_eq!(todo_tickets[0].key, "PROJ-1");

    let done_tickets = FilterService::filter_by_status_category(&tickets, StatusCategory::Done);
    assert_eq!(done_tickets.len(), 1);
    assert_eq!(done_tickets[0].key, "PROJ-3");
}

#[test]
fn test_filter_by_assignee() {
    let tickets = create_test_tickets();
    let user1_tickets = FilterService::filter_by_assignee(&tickets, "user1");
    assert_eq!(user1_tickets.len(), 2);
    assert!(user1_tickets.iter().all(|t| t.assignee.as_ref().map(|u| u.account_id == "user1").unwrap_or(false)));
}

#[test]
fn test_filter_by_text() {
    let tickets = create_test_tickets();
    let filtered = FilterService::filter_by_text(&tickets, "todo");
    assert_eq!(filtered.len(), 1);
    assert_eq!(filtered[0].key, "PROJ-1");

    let filtered_by_key = FilterService::filter_by_text(&tickets, "PROJ-2");
    assert_eq!(filtered_by_key.len(), 1);
    assert_eq!(filtered_by_key[0].key, "PROJ-2");
}

#[test]
fn text_filter_ignores_case() {
    let tickets = create_test_tickets();
    assert_eq!(FilterService::filter_by_text(&tickets, "TICKET").len(), 3);
    assert_eq!(FilterService::filter_by_text(&tickets, "proj-3")[0].key, "PROJ-3");
    assert!(lazyjira::services::matches_folded("done ticket", "proj-3", "done"));
    assert!(!lazyjira::services::matches_folded("Done ticket", "PROJ-3", "done ticket x"));
}

#[test]
fn test_create_ticket_empty_summary() {
    let data = CreateIssueData {
        project_key: "PROJ".to_string(),
        issue_type: "Task".to_string(),
        summary: "   ".to_string(),
        description: None,
        assignee: None,
        priority: None,
    };
    let result = check_new_ticket(&data);
    assert!(result.is_err());
    assert!(matches!(result.unwrap_err(), LazyJiraError::Validation(_)));
}

#[test]
fn creation_needs_a_project_key() {
    let mut data = CreateIssueData {
        project_key: " ".to_string(),
        issue_type: "Task".to_string(),
        summary: "New ticket".to_string(),
        description: None,
        assignee: None,
        priority: None,
    };
    assert_eq!(check_new_ticket(&data), Err(LazyJiraError::Validation("Project key cannot be empty".to_string())));
    data.project_key = "PROJ".to_string();
    assert_eq!(check_new_ticket(&data), Ok(()));
}
