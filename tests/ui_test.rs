use lazyjira::client::SearchResult;
use lazyjira::error::LazyJiraError;
use lazyjira::events::{AppEvent, EventHandler, KeyCode, KeyEvent, KeyModifiers};
use lazyjira::lists::{TicketListState, TransitionListState};
use lazyjira::models::{Comment, Status, StatusCategory, Ticket, Transition, User};
use lazyjira::state::{AppState, ViewMode};
use lazyjira::time::Timestamp;
use lazyjira::ui::{Action, AfterRefresh, App, LoadingState, Screen, TransitionGoal, TransitionOrigin};

fn create_test_ticket(key: &str, summary: &str) -> Ticket {
    Ticket {
        id: "1".to_string(),
        key: key.to_string(),
        summary: summary.to_string(),
        status: Status { id: "1".to_string(), name: "To Do".to_string(), category: StatusCategory::ToDo },
        assignee: None,
        priority: lazyjira::models::Priority::Medium,
        issue_type: "Task".to_string(),
        project_key: "TEST".to_string(),
        description: None,
        created: Timestamp { millis: 0 },
        updated: Timestamp { millis: 0 },
    }
}

fn transition(id: &str, name: &str, to: &str) -> Transition {
    Transition { id: id.to_string(), name: name.to_string(), to_status: to.to_string() }
}

fn key(code: KeyCode, shift: bool, control: bool) -> KeyEvent {
    KeyEvent { code, modifiers: KeyModifiers { shift, control, alt: false, other: false } }
}

fn page(tickets: Vec<Ticket>) -> SearchResult {
    SearchResult { start_at: 0, max_results: 50, total: tickets.len(), issues: tickets }
}

fn app_with_list() -> App {
    let mut app = App::new("Connected".to_string(), "company.atlassian.net".to_string());
    assert_eq!(app.handle_event(AppEvent::Refresh), Action::LoadTickets);
    app.finish_load_tickets(Ok(page(vec![create_test_ticket("PROJ-1", "first"), create_test_ticket("PROJ-2", "second")])));
    app
}

#[test]
fn test_app_creation() {
    let app = App::new("Connected".to_string(), "company.atlassian.net".to_string());
    assert!(app.running);
    assert_eq!(app.view_mode, Screen::List);
    assert_eq!(app.loading_state, LoadingState::Idle);
}

#[test]
fn select_then_successful_fetches_show_detail() {
    let mut app = app_with_list();
    let action = app.handle_event(AppEvent::EnterDetail);
    assert_eq!(action, Action::FetchDetail { key: "PROJ-1".to_string() });
    assert_eq!(app.view_mode, Screen::Detail);
    assert!(app.detail_loading);

    let mut full = create_test_ticket("PROJ-1", "first, in full");
    full.description = Some("details".to_string());
    let comment = Comment::new("c1".to_string(), User::new("u".to_string(), "U".to_string()), "hi".to_string(), Timestamp { millis: 1 });
    app.finish_detail(Ok(full.clone()), Ok(vec![comment.clone()]));

    assert_eq!(app.view_mode, Screen::Detail);
    assert!(!app.detail_loading);
    assert_eq!(app.detail_ticket, Some(full));
    assert_eq!(app.detail_comments, vec![comment]);
    assert_eq!(app.current_ticket_key.as_deref(), Some("PROJ-1"));
}

#[test]
fn select_with_failed_issue_fetch_falls_back_to_the_list_row() {
    let mut app = app_with_list();
    app.handle_event(AppEvent::EnterDetail);
    app.finish_detail(Err(LazyJiraError::Network("down".to_string())), Err(LazyJiraError::Api("500".to_string())));
    assert_eq!(app.view_mode, Screen::Detail);
    assert!(!app.detail_loading);
    assert_eq!(app.detail_ticket, Some(create_test_ticket("PROJ-1", "first")));
    assert!(app.detail_comments.is_empty());
}

#[test]
fn back_clears_detail_state() {
    let mut app = app_with_list();
    app.handle_event(AppEvent::EnterDetail);
    app.finish_detail(Ok(create_test_ticket("PROJ-1", "x")), Ok(vec![]));
    assert_eq!(app.handle_event(AppEvent::ShowTransitions), Action::FetchTransitions { key: "PROJ-1".to_string() });
    assert_eq!(app.view_mode, Screen::Transitions);
    app.finish_transitions(Ok(vec![transition("11", "Start", "In Progress")]));
    assert_eq!(app.handle_event(AppEvent::ExitDetail), Action::Done);
    assert_eq!(app.view_mode, Screen::List);
    assert!(app.detail_ticket.is_none());
    assert!(app.detail_comments.is_empty());
    assert!(app.transition_list_state.transitions.is_empty());
    assert!(app.current_ticket_key.is_none());
}

#[test]
fn confirming_a_transition_refetches_and_reloads() {
    let mut app = app_with_list();
    app.handle_event(AppEvent::EnterDetail);
    app.finish_detail(Ok(create_test_ticket("PROJ-1", "x")), Ok(vec![]));
    app.handle_event(AppEvent::ShowTransitions);
    app.finish_transitions(Ok(vec![transition("11", "Start", "In Progress"), transition("21", "Done", "Done")]));
    app.handle_event(AppEvent::MoveDown);
    let action = app.handle_event(AppEvent::EnterDetail);
    assert_eq!(
        action,
        Action::ExecuteTransition { key: "PROJ-1".to_string(), transition_id: "21".to_string(), origin: TransitionOrigin::Picked }
    );
    // A failed transition leaves everything as it was.
    assert_eq!(app.finish_transition("PROJ-1".to_string(), TransitionOrigin::Picked, Err(LazyJiraError::Api("x".to_string()))), Action::Done);
    assert_eq!(app.view_mode, Screen::Transitions);
    let next = app.finish_transition("PROJ-1".to_string(), TransitionOrigin::Picked, Ok(()));
    assert_eq!(next, Action::RefreshIssue { key: "PROJ-1".to_string(), then: AfterRefresh::ReloadList });
    assert_eq!(app.view_mode, Screen::Detail);
    let mut done = create_test_ticket("PROJ-1", "x");
    done.status.category = StatusCategory::Done;
    assert_eq!(app.finish_refresh(Ok(done.clone()), AfterRefresh::ReloadList), Action::LoadTickets);
    assert_eq!(app.detail_ticket, Some(done));
    assert_eq!(app.loading_state, LoadingState::Loading);
}

#[test]
fn failed_transition_listing_leaves_an_empty_list() {
    let mut app = app_with_list();
    app.handle_event(AppEvent::EnterDetail);
    app.handle_event(AppEvent::ShowTransitions);
    assert!(app.transitions_loading);
    app.finish_transitions(Err(LazyJiraError::Network("x".to_string())));
    assert!(!app.transitions_loading);
    assert!(app.transition_list_state.transitions.is_empty());
}

#[test]
fn shortcuts_find_matching_transitions() {
    let app = App::new("c".to_string(), "i".to_string());
    let ts = vec![transition("1", "Review", "In Review"), transition("2", "Begin", "In Progress"), transition("3", "Close", "Done")];
    assert_eq!(
        app.finish_goal_lookup("P-1".to_string(), TransitionGoal::StartProgress, Ok(ts.clone())),
        Action::ExecuteTransition { key: "P-1".to_string(), transition_id: "2".to_string(), origin: TransitionOrigin::Shortcut }
    );
    assert_eq!(
        app.finish_goal_lookup("P-1".to_string(), TransitionGoal::Resolve, Ok(ts)),
        Action::ExecuteTransition { key: "P-1".to_string(), transition_id: "3".to_string(), origin: TransitionOrigin::Shortcut }
    );
    assert_eq!(
        app.finish_goal_lookup("P-1".to_string(), TransitionGoal::Resolve, Ok(vec![transition("9", "Review", "REVIEW")])),
        Action::Done
    );
    assert_eq!(
        app.finish_goal_lookup("P-1".to_string(), TransitionGoal::StartProgress, Ok(vec![transition("7", "START WORK", "x")])),
        Action::ExecuteTransition { key: "P-1".to_string(), transition_id: "7".to_string(), origin: TransitionOrigin::Shortcut }
    );
}

#[test]
fn load_failure_is_shown() {
    let mut app = App::new("c".to_string(), "i".to_string());
    app.handle_event(AppEvent::Refresh);
    app.finish_load_tickets(Err(LazyJiraError::Network("timeout".to_string())));
    assert_eq!(app.loading_state, LoadingState::Error("Failed to load tickets: Network error: timeout".to_string()));
}

#[test]
fn open_in_browser_builds_the_issue_url() {
    let mut app = app_with_list();
    assert_eq!(
        app.handle_event(AppEvent::OpenInBrowser),
        Action::OpenUrl { url: "https://company.atlassian.net/browse/PROJ-1".to_string() }
    );
    assert_eq!(app.handle_event(AppEvent::Quit), Action::Done);
    assert!(!app.running);
}

#[test]
fn test_ticket_list_state_new() {
    let state = TicketListState::new();
    assert!(state.tickets.is_empty());
    assert!(state.selected_indices.is_empty());
    assert!(state.focused_index.is_none());
}

#[test]
fn test_ticket_list_state_set_tickets() {
    let mut state = TicketListState::new();
    state.set_tickets(vec![create_test_ticket("TEST-1", "Test ticket 1"), create_test_ticket("TEST-2", "Test ticket 2")]);
    assert_eq!(state.tickets.len(), 2);
    assert_eq!(state.focused_index, Some(0));
    assert!(state.selected_indices.is_empty());
}

#[test]
fn test_move_up_down() {
    let mut state = TicketListState::new();
    state.set_tickets(vec![
        create_test_ticket("TEST-1", "Test ticket 1"),
        create_test_ticket("TEST-2", "Test ticket 2"),
        create_test_ticket("TEST-3", "Test ticket 3"),
    ]);
    assert_eq!(state.focused_index, Some(0));
    state.move_down();
    assert_eq!(state.focused_index, Some(1));
    state.move_down();
    assert_eq!(state.focused_index, Some(2));
    state.move_down();
    assert_eq!(state.focused_index, Some(2));
    state.move_up();
    assert_eq!(state.focused_index, Some(1));
    state.move_up();
    assert_eq!(state.focused_index, Some(0));
    state.move_up();
    assert_eq!(state.focused_index, Some(0));
}

#[test]
fn ticket_list_test_toggle_selection() {
    let mut state = TicketListState::new();
    state.set_tickets(vec![create_test_ticket("TEST-1", "Test ticket 1")]);
    state.focused_index = Some(0);
    assert!(!state.selected_indices.contains(&0));
    state.toggle_selection();
    assert!(state.selected_indices.contains(&0));
    state.toggle_selection();
    assert!(!state.selected_indices.contains(&0));
}

#[test]
fn ticket_list_test_focused_ticket() {
    let mut state = TicketListState::new();
    state.set_tickets(vec![create_test_ticket("TEST-1", "Test ticket 1")]);
    state.focused_index = Some(0);
    let focused = state.focused_ticket();
    assert!(focused.is_some());
    assert_eq!(focused.unwrap().key, "TEST-1");
}

#[test]
fn transition_list_moves_within_bounds() {
    let mut state = TransitionListState::new();
    state.move_down();
    assert_eq!(state.focused_index, None);
    state.set_transitions(vec![transition("1", "a", "b"), transition("2", "c", "d")]);
    assert_eq!(state.focused_index, Some(0));
    state.move_up();
    assert_eq!(state.focused_index, Some(0));
    state.move_down();
    state.move_down();
    assert_eq!(state.focused_index, Some(1));
    assert_eq!(state.focused_transition().unwrap().id, "2");
    state.set_transitions(vec![]);
    assert_eq!(state.focused_index, None);
    assert!(state.focused_transition().is_none());
}

#[test]
fn test_app_state_new() {
    let state = AppState::new();
    assert!(state.tickets.is_empty());
    assert!(state.selected_indices.is_empty());
    assert_eq!(state.view_mode, ViewMode::List);
}

#[test]
fn state_test_focused_ticket() {
    let mut state = AppState::new();
    state.tickets.push(create_test_ticket("PROJ-123", "Test"));
    state.focused_index = Some(0);
    assert!(state.focused_ticket().is_some());
    assert_eq!(state.focused_ticket().unwrap().key, "PROJ-123");
}

#[test]
fn state_test_toggle_selection() {
    let mut state = AppState::new();
    state.tickets.push(create_test_ticket("PROJ-123", "Test"));
    state.focused_index = Some(0);
    assert!(!state.selected_indices.contains(&0));
    state.toggle_selection();
    assert!(state.selected_indices.contains(&0));
    state.toggle_selection();
    assert!(!state.selected_indices.contains(&0));
}

#[test]
fn selected_tickets_in_list_order() {
    let mut state = AppState::new();
    for k in ["A-1", "A-2", "A-3"] {
        state.tickets.push(create_test_ticket(k, "t"));
    }
    state.selected_indices.insert(2);
    state.selected_indices.insert(0);
    state.selected_indices.insert(9);
    let keys: Vec<&str> = state.selected_tickets().iter().map(|t| t.key.as_str()).collect();
    assert_eq!(keys, vec!["A-1", "A-3"]);
}

#[test]
fn test_handle_key_quit() {
    assert_eq!(EventHandler::handle_key(key(KeyCode::Char('q'), false, false)), AppEvent::Quit);
    assert_eq!(EventHandler::handle_key(key(KeyCode::Esc, false, false)), AppEvent::Quit);
}

#[test]
fn test_handle_key_movement() {
    assert_eq!(EventHandler::handle_key(key(KeyCode::Up, false, false)), AppEvent::MoveUp);
    assert_eq!(EventHandler::handle_key(key(KeyCode::Char('k'), false, false)), AppEvent::MoveUp);
    assert_eq!(EventHandler::handle_key(key(KeyCode::Down, false, false)), AppEvent::MoveDown);
    assert_eq!(EventHandler::handle_key(key(KeyCode::Char('j'), false, false)), AppEvent::MoveDown);
}

#[test]
fn test_handle_key_ctrl_c() {
    assert_eq!(EventHandler::handle_key(key(KeyCode::Char('c'), false, true)), AppEvent::Quit);
}

#[test]
fn test_handle_key_enter() {
    assert_eq!(EventHandler::handle_key(key(KeyCode::Enter, false, false)), AppEvent::EnterDetail);
}

#[test]
fn modifiers_change_the_meaning_of_keys() {
    assert_eq!(EventHandler::handle_key(key(KeyCode::Char('q'), false, true)), AppEvent::Unknown);
    assert_eq!(EventHandler::handle_key(key(KeyCode::Char('Q'), true, false)), AppEvent::Quit);
    assert_eq!(EventHandler::handle_key(key(KeyCode::Char('c'), false, false)), AppEvent::Unknown);
    assert_eq!(EventHandler::handle_key(key(KeyCode::Char(' '), false, false)), AppEvent::ToggleSelection);
    assert_eq!(EventHandler::handle_key(key(KeyCode::Char('R'), true, false)), AppEvent::Refresh);
    assert_eq!(EventHandler::handle_key(key(KeyCode::Backspace, false, false)), AppEvent::ExitDetail);
}

#[test]
fn test_should_tick() {
    let mut handler = EventHandler::new(100);
    assert!(!handler.should_tick_at(0));
    assert!(handler.should_tick_at(150));
    assert!(!handler.should_tick_at(150));
}
