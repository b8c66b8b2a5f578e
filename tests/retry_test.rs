use lazyjira::client::{rate_limit_penalty_ms, response_error};
use lazyjira::error::LazyJiraError;
use lazyjira::json::JsonValue;
use lazyjira::parser::parse_issue;
use lazyjira::retry::{is_retryable_error, RetryConfig, RetryState};

/// Runs `op` under the retry policy; returns its result, the number of
/// attempts and the delays slept, in order.
fn run<T>(config: &RetryConfig, mut op: impl FnMut() -> Result<T, LazyJiraError>) -> (Result<T, LazyJiraError>, usize, Vec<u64>) {
    let mut state = RetryState::new(config);
    let mut attempts = 0;
    let mut sleeps = Vec::new();
    loop {
        attempts += 1;
        match op() {
            Ok(v) => return (Ok(v), attempts, sleeps),
            Err(e) => match state.after_failure(config, &e) {
                Some(wait) => sleeps.push(wait),
                None => return (Err(e), attempts, sleeps),
            },
        }
    }
}

fn quick(max_retries: usize) -> RetryConfig {
    RetryConfig { max_retries, initial_delay_ms: 10, max_delay_ms: 1000, backoff_multiplier_permille: 2000 }
}

#[test]
fn test_retry_succeeds_on_first_attempt() {
    let config = RetryConfig::default();
    let (result, attempts, _) = run(&config, || Ok::<i32, LazyJiraError>(42));
    assert_eq!(result.unwrap(), 42);
    assert_eq!(attempts, 1);
}

#[test]
fn test_retry_succeeds_after_retries() {
    let config = quick(3);
    let mut count = 0;
    let (result, attempts, _) = run(&config, || {
        count += 1;
        if count < 3 {
            Err(LazyJiraError::Api("Network error".to_string()))
        } else {
            Ok(42)
        }
    });
    assert_eq!(result.unwrap(), 42);
    assert_eq!(attempts, 3);
}

#[test]
fn test_retry_fails_after_max_retries() {
    let config = quick(2);
    let (result, attempts, _) =
        run(&config, || Err::<i32, LazyJiraError>(LazyJiraError::Api("Network error".to_string())));
    assert!(result.is_err());
    assert_eq!(attempts, 3);
}

#[test]
fn test_retry_does_not_retry_auth_errors() {
    let config = RetryConfig::default();
    let (result, attempts, _) =
        run(&config, || Err::<i32, LazyJiraError>(LazyJiraError::Authentication("Invalid credentials".to_string())));
    assert!(result.is_err());
    assert_eq!(attempts, 1);
}

#[test]
fn test_is_retryable_error() {
    assert!(is_retryable_error(&LazyJiraError::Api("429 Too Many Requests".to_string())));
    assert!(is_retryable_error(&LazyJiraError::Api("500 Internal Server Error".to_string())));
    assert!(is_retryable_error(&LazyJiraError::Api("502 Bad Gateway".to_string())));

    assert!(!is_retryable_error(&LazyJiraError::Authentication("Invalid".to_string())));
    assert!(!is_retryable_error(&LazyJiraError::Validation("Invalid".to_string())));
}

#[test]
fn retryable_classes() {
    assert!(is_retryable_error(&LazyJiraError::Network("reset".to_string())));
    assert!(is_retryable_error(&LazyJiraError::Io("broken pipe".to_string())));
    assert!(is_retryable_error(&LazyJiraError::Api("API error (504 Gateway Timeout): ".to_string())));
    assert!(!is_retryable_error(&LazyJiraError::Api("API error (404 Not Found): gone".to_string())));
    assert!(!is_retryable_error(&LazyJiraError::Parse("x".to_string())));
    assert!(!is_retryable_error(&LazyJiraError::Config("x".to_string())));
    assert!(!is_retryable_error(&LazyJiraError::Internal("x".to_string())));
}

#[test]
fn authentication_failure_is_attempted_once_whatever_the_budget() {
    for max_retries in [0, 1, 5, 50] {
        let (_, attempts, sleeps) =
            run(&quick(max_retries), || Err::<(), LazyJiraError>(LazyJiraError::Authentication("no".to_string())));
        assert_eq!(attempts, 1);
        assert!(sleeps.is_empty());
    }
}

#[test]
fn persistent_retryable_failure_is_attempted_max_retries_plus_one_times() {
    for max_retries in [0, 1, 3, 7] {
        let (_, attempts, _) =
            run(&quick(max_retries), || Err::<(), LazyJiraError>(LazyJiraError::Network("down".to_string())));
        assert_eq!(attempts, max_retries + 1);
    }
}

#[test]
fn client_errors_stop_at_once() {
    for msg in ["API error (400 Bad Request): x", "API error (404 Not Found): x", "API error (422 Unprocessable Entity): x"] {
        let (_, attempts, _) = run(&quick(3), || Err::<(), LazyJiraError>(LazyJiraError::Api(msg.to_string())));
        assert_eq!(attempts, 1);
    }
    let (_, attempts, _) = run(&quick(3), || Err::<(), LazyJiraError>(LazyJiraError::Validation("v".to_string())));
    assert_eq!(attempts, 1);
}

#[test]
fn delays_grow_and_are_capped() {
    let config = RetryConfig { max_retries: 5, initial_delay_ms: 100, max_delay_ms: 500, backoff_multiplier_permille: 2000 };
    let (_, _, sleeps) = run(&config, || Err::<(), LazyJiraError>(LazyJiraError::Network("down".to_string())));
    assert_eq!(sleeps, vec![100, 200, 400, 500, 500]);
    let defaults = RetryConfig::default();
    assert_eq!(defaults.max_retries, 3);
    assert_eq!(defaults.initial_delay_ms, 100);
    assert_eq!(defaults.max_delay_ms, 10_000);
    assert_eq!(defaults.backoff_multiplier_permille, 2000);
}

fn issue_json() -> JsonValue {
    let text = r#"{ "id": "10000", "key": "PROJ-123", "fields": {
        "summary": "Test issue",
        "status": { "id": "3", "name": "In Progress", "statusCategory": { "key": "indeterminate" } },
        "issuetype": { "name": "Bug" }, "project": { "key": "PROJ" },
        "created": "2024-01-15T10:30:00.000+0000", "updated": "2024-01-16T14:20:00.000+0000" } }"#;
    fn conv(v: &serde_json::Value) -> JsonValue {
        match v {
            serde_json::Value::Null => JsonValue::Null,
            serde_json::Value::Bool(b) => JsonValue::Bool(*b),
            serde_json::Value::Number(n) => JsonValue::Number(n.to_string()),
            serde_json::Value::String(s) => JsonValue::Str(s.clone()),
            serde_json::Value::Array(a) => JsonValue::Array(a.iter().map(conv).collect()),
            serde_json::Value::Object(o) => JsonValue::Object(o.iter().map(|(k, v)| (k.clone(), conv(v))).collect()),
        }
    }
    conv(&serde_json::from_str(text).unwrap())
}

#[test]
fn rate_limited_fetch_is_retried_and_waits_the_penalty() {
    // The service answers 429 once, then 200 with the issue.
    let statuses = [429u16, 200u16];
    let mut call = 0;
    let mut waited_ms: u64 = 0;
    let config = RetryConfig::default();
    let mut state = RetryState::new(&config);
    let ticket = loop {
        let status = statuses[call];
        call += 1;
        waited_ms += rate_limit_penalty_ms(status);
        let outcome = match response_error(status, "Too Many Requests", "") {
            Some(e) => Err(e),
            None => parse_issue(&issue_json()),
        };
        match outcome {
            Ok(t) => break t,
            Err(e) => {
                assert_eq!(e, LazyJiraError::Api("429 Too Many Requests".to_string()));
                waited_ms += state.after_failure(&config, &e).expect("a 429 is retried");
            }
        }
    };
    assert_eq!(call, 2);
    assert_eq!(ticket.key, "PROJ-123");
    assert!(waited_ms >= 1000);
}
