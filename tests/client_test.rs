use lazyjira::client::{
    comments_endpoint, issue_endpoint, legacy_search_endpoint, rate_limit_penalty_ms, response_error, search_endpoint,
    search_result_from_fetches, transitions_endpoint, ConnectionSettings, CreateIssueData, SearchResult,
};
use lazyjira::config::{JiraCliAuth, JiraCliConfig};
use lazyjira::error::LazyJiraError;
use lazyjira::json::JsonValue;
use lazyjira::models::{Status, StatusCategory, Ticket};
use lazyjira::requests::{comment_body, create_issue_body, text_document, transition_body};

fn ticket(key: &str) -> Ticket {
    Ticket::new(key.to_string(), "s".to_string(), Status { id: "1".to_string(), name: "To Do".to_string(), category: StatusCategory::ToDo })
}

fn config(auth_type: &str, token: Option<&str>) -> JiraCliConfig {
    JiraCliConfig {
        instance: "test.atlassian.net".to_string(),
        auth: JiraCliAuth { auth_type: auth_type.to_string(), username: "test@example.com".to_string(), token: token.map(|t| t.to_string()) },
    }
}

fn to_serde(v: &JsonValue) -> serde_json::Value {
    match v {
        JsonValue::Null => serde_json::Value::Null,
        JsonValue::Bool(b) => serde_json::Value::Bool(*b),
        JsonValue::Number(n) => serde_json::from_str(n).unwrap(),
        JsonValue::Str(s) => serde_json::Value::String(s.clone()),
        JsonValue::Array(a) => serde_json::Value::Array(a.iter().map(to_serde).collect()),
        JsonValue::Object(o) => serde_json::Value::Object(o.iter().map(|(k, v)| (k.clone(), to_serde(v))).collect()),
    }
}

#[test]
fn pagination_reports_more_pages() {
    let done = SearchResult { start_at: 0, max_results: 50, total: 2, issues: vec![ticket("P-1"), ticket("P-2")] };
    assert!(!done.has_more());
    let more = SearchResult { start_at: 0, max_results: 50, total: 5, issues: vec![ticket("P-1"), ticket("P-2")] };
    assert!(more.has_more());
    assert_eq!(more.next_start_at(), 2);
    let empty = SearchResult { start_at: 10, max_results: 50, total: 3, issues: vec![] };
    assert!(!empty.has_more());
}

#[test]
fn auth_header_is_basic_with_encoded_credentials() {
    let s = ConnectionSettings::from_config(&config("api-token", Some("test-token")), None).unwrap();
    assert_eq!(s.auth_header, "Basic dGVzdEBleGFtcGxlLmNvbTp0ZXN0LXRva2Vu");
    assert_eq!(s.base_url, "https://test.atlassian.net/rest/api/3");
    assert_eq!(s.url("issue/P-1"), "https://test.atlassian.net/rest/api/3/issue/P-1");
    let basic = ConnectionSettings::from_config(&config("basic", Some("pw")), Some("http://localhost:1/rest/api/3".to_string())).unwrap();
    assert_eq!(basic.base_url, "http://localhost:1/rest/api/3");
    assert_eq!(basic.auth_header, "Basic dGVzdEBleGFtcGxlLmNvbTpwdw==");
}

#[test]
fn missing_or_unknown_credentials_are_authentication_errors() {
    assert_eq!(
        ConnectionSettings::from_config(&config("api-token", None), None).unwrap_err(),
        LazyJiraError::Authentication("API token not found in config".to_string())
    );
    assert_eq!(
        ConnectionSettings::from_config(&config("basic", None), None).unwrap_err(),
        LazyJiraError::Authentication("Password not found for basic auth".to_string())
    );
    assert_eq!(
        ConnectionSettings::from_config(&config("oauth", Some("x")), None).unwrap_err(),
        LazyJiraError::Authentication("Unsupported auth type: oauth".to_string())
    );
}

#[test]
fn endpoints_encode_the_query() {
    assert_eq!(issue_endpoint("PROJ-123"), "issue/PROJ-123");
    assert_eq!(transitions_endpoint("P-1"), "issue/P-1/transitions");
    assert_eq!(comments_endpoint("P-1"), "issue/P-1/comment");
    assert_eq!(
        search_endpoint("project = PROJ", 0, 50),
        "search/jql?jql=project%20%3D%20PROJ&startAt=0&maxResults=50"
    );
    assert_eq!(legacy_search_endpoint("a~b_c.d-é", 100, 7), "search?jql=a~b_c.d-%C3%A9&startAt=100&maxResults=7");
}

#[test]
fn response_statuses_map_onto_errors() {
    assert_eq!(response_error(200, "OK", ""), None);
    assert_eq!(response_error(204, "No Content", ""), None);
    assert_eq!(response_error(401, "Unauthorized", "x"), Some(LazyJiraError::Authentication("Unauthorized".to_string())));
    assert_eq!(response_error(403, "Forbidden", "x"), Some(LazyJiraError::Authentication("Forbidden".to_string())));
    assert_eq!(response_error(429, "Too Many Requests", "x"), Some(LazyJiraError::Api("429 Too Many Requests".to_string())));
    assert_eq!(
        response_error(404, "Not Found", r#"{"errorMessages":["Issue does not exist"]}"#),
        Some(LazyJiraError::Api(r#"API error (404 Not Found): {"errorMessages":["Issue does not exist"]}"#.to_string()))
    );
    assert_eq!(rate_limit_penalty_ms(429), 1000);
    assert_eq!(rate_limit_penalty_ms(500), 0);
}

#[test]
fn search_from_fetches_skips_failures() {
    let answer = JsonValue::Object(vec![("total".to_string(), JsonValue::Number("9".to_string()))]);
    let r = search_result_from_fetches(&answer, 5, 20, vec![Some(ticket("P-1")), None, Some(ticket("P-3"))]);
    let keys: Vec<&str> = r.issues.iter().map(|t| t.key.as_str()).collect();
    assert_eq!(keys, vec!["P-1", "P-3"]);
    assert_eq!((r.start_at, r.max_results, r.total), (5, 20, 9));
    let bare = search_result_from_fetches(&JsonValue::Object(vec![]), 0, 50, vec![Some(ticket("P-1"))]);
    assert_eq!(bare.total, 1);
}

#[test]
fn request_bodies_have_the_document_shape() {
    let doc = to_serde(&text_document("hello".to_string()));
    assert_eq!(doc["type"], "doc");
    assert_eq!(doc["version"], 1);
    assert_eq!(doc["content"][0]["type"], "paragraph");
    assert_eq!(doc["content"][0]["content"][0]["text"], "hello");

    let body = to_serde(&create_issue_body(CreateIssueData {
        project_key: "PROJ".to_string(),
        issue_type: "Task".to_string(),
        summary: "New ticket".to_string(),
        description: None,
        assignee: Some("abc".to_string()),
        priority: Some("High".to_string()),
    }));
    assert_eq!(body["fields"]["project"]["key"], "PROJ");
    assert_eq!(body["fields"]["summary"], "New ticket");
    assert_eq!(body["fields"]["issuetype"]["name"], "Task");
    assert_eq!(body["fields"]["assignee"]["accountId"], "abc");
    assert_eq!(body["fields"]["priority"]["name"], "High");
    assert!(body["fields"].get("description").is_none());

    let t = to_serde(&transition_body("31", Some("moving".to_string())));
    assert_eq!(t["transition"]["id"], "31");
    assert_eq!(t["update"]["comment"][0]["add"]["body"]["content"][0]["content"][0]["text"], "moving");
    let plain = to_serde(&transition_body("31", None));
    assert!(plain.get("update").is_none());

    let c = to_serde(&comment_body("note".to_string()));
    assert_eq!(c["body"]["content"][0]["content"][0]["text"], "note");
}
