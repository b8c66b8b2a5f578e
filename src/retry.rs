//! Retry with exponential backoff, as a decision procedure: after each failed
//! attempt it says whether to try again and how long to wait first. The
//! caller runs the operation and sleeps.
use vstd::prelude::*;
use crate::error::LazyJiraError;
use crate::json::is_digit;
use crate::text::{contains_str, has_substring};

verus! {

/// Retry policy. The multiplier is in thousandths (2000 doubles the delay).
#[derive(Debug, Clone, Copy, PartialEq, Eq, Structural)]
pub struct RetryConfig {
    pub max_retries: usize,
    pub initial_delay_ms: u64,
    pub max_delay_ms: u64,
    pub backoff_multiplier_permille: u64,
}

impl Default for RetryConfig {
    /// Three retries, 100 ms first delay, at most 10 s, doubling.
    fn default() -> (r: Self)
        ensures
            r.max_retries == 3,
            r.initial_delay_ms == 100,
            r.max_delay_ms == 10_000,
            r.backoff_multiplier_permille == 2000,
    {
        RetryConfig {
            max_retries: 3,
            initial_delay_ms: 100,
            max_delay_ms: 10_000,
            backoff_multiplier_permille: 2000,
        }
    }
}

/// An API error whose text encodes one of the client errors that no retry
/// can mend: 400, 401, 403, 404 or 422.
pub open spec fn names_client_error(m: Seq<char>) -> bool {
    ||| has_substring(m, "400"@)
    ||| has_substring(m, "401"@)
    ||| has_substring(m, "403"@)
    ||| has_substring(m, "404"@)
    ||| has_substring(m, "422"@)
}

/// The executor gives up on these at once: authentication and validation
/// failures, and API client errors.
pub open spec fn stops_retrying(e: LazyJiraError) -> bool {
    match e {
        LazyJiraError::Authentication(_) => true,
        LazyJiraError::Validation(_) => true,
        LazyJiraError::Api(m) => names_client_error(m@),
        _ => false,
    }
}

/// Whether the executor gives up on `e` at once.
pub fn is_permanent_failure(e: &LazyJiraError) -> (r: bool)
    ensures
        r == stops_retrying(*e),
{
    match e {
        LazyJiraError::Authentication(_) => true,
        LazyJiraError::Validation(_) => true,
        LazyJiraError::Api(m) => {
            let m = m.as_str();
            contains_str(m, "400") || contains_str(m, "401") || contains_str(m, "403")
                || contains_str(m, "404") || contains_str(m, "422")
        },
        _ => false,
    }
}

/// A three-digit code starting with 5 occurs in `m` at `i`.
pub open spec fn server_code_at(m: Seq<char>, i: int) -> bool {
    0 <= i && i + 3 <= m.len() && m[i] == '5' && is_digit(m[i + 1]) && is_digit(m[i + 2])
}

/// The text mentions a 5xx status code.
pub open spec fn names_server_error(m: Seq<char>) -> bool {
    exists|i: int| server_code_at(m, i)
}

/// Transient failures: network and IO errors, and API errors for 429 or a 5xx
/// status.
pub open spec fn transient(e: LazyJiraError) -> bool {
    match e {
        LazyJiraError::Network(_) => true,
        LazyJiraError::Io(_) => true,
        LazyJiraError::Api(m) => has_substring(m@, "429"@) || names_server_error(m@),
        _ => false,
    }
}

/// Whether `m` mentions a 5xx status code.
pub fn mentions_server_error(m: &str) -> (r: bool)
    ensures
        r == names_server_error(m@),
{
    let n = m.unicode_len();
    if n < 3 {
        assert forall|i: int| !server_code_at(m@, i) by {}
        return false;
    }
    let mut i: usize = 0;
    while i < n - 2
        invariant
            n == m@.len(),
            3 <= n,
            i <= n - 2,
            forall|j: int| 0 <= j < i ==> !server_code_at(m@, j),
        decreases n - i,
    {
        let a = m.get_char(i);
        let b = m.get_char(i + 1);
        let c = m.get_char(i + 2);
        if a == '5' && '0' <= b && b <= '9' && '0' <= c && c <= '9' {
            assert(server_code_at(m@, i as int));
            return true;
        }
        i = i + 1;
    }
    assert forall|j: int| !server_code_at(m@, j) by {
        if 0 <= j && j < i {
        }
    }
    false
}

/// Whether `error` is worth retrying: network and IO errors, and API errors
/// for 429 or a 5xx status.
pub fn is_retryable_error(error: &LazyJiraError) -> (r: bool)
    ensures
        r == transient(*error),
{
    match error {
        LazyJiraError::Network(_) => true,
        LazyJiraError::Io(_) => true,
        LazyJiraError::Api(m) => contains_str(m.as_str(), "429") || mentions_server_error(m.as_str()),
        _ => false,
    }
}

/// Where a run of attempts stands: how many failed so far and the next delay.
#[derive(Debug, Clone, Copy, PartialEq, Eq, Structural)]
pub struct RetryState {
    pub attempt: usize,
    pub delay_ms: u64,
}

/// The delay after `d`: multiplied, then capped.
pub open spec fn next_delay(config: RetryConfig, d: u64) -> u64 {
    let grown = (d as int * config.backoff_multiplier_permille as int) / 1000;
    if grown < config.max_delay_ms as int {
        grown as u64
    } else {
        config.max_delay_ms
    }
}

/// The state before the first attempt.
pub open spec fn initial_state(config: RetryConfig) -> RetryState {
    RetryState { attempt: 0, delay_ms: config.initial_delay_ms }
}

/// What the executor does after attempt `st.attempt` failed with `e`:
/// nothing (give up and report `e`), or wait and move to the next state.
pub open spec fn step(config: RetryConfig, st: RetryState, e: LazyJiraError) -> Option<(RetryState, u64)> {
    if stops_retrying(e) || st.attempt >= config.max_retries {
        None
    } else {
        Some((RetryState { attempt: (st.attempt + 1) as usize, delay_ms: next_delay(config, st.delay_ms) }, st.delay_ms))
    }
}

impl RetryState {
    pub fn new(config: &RetryConfig) -> (r: Self)
        ensures
            r == initial_state(*config),
    {
        RetryState { attempt: 0, delay_ms: config.initial_delay_ms }
    }

    /// Records a failed attempt. `Some(wait)`: sleep `wait` ms, then try again;
    /// `None`: give up and report `error`.
    pub fn after_failure(&mut self, config: &RetryConfig, error: &LazyJiraError) -> (r: Option<u64>)
        ensures
            match step(*config, *old(self), *error) {
                Some((next, wait)) => r == Some(wait) && *final(self) == next,
                None => r is None && *final(self) == *old(self),
            },
    {
        if is_permanent_failure(error) || self.attempt >= config.max_retries {
            return None;
        }
        let wait = self.delay_ms;
        let a = self.delay_ms as u128;
        let b = config.backoff_multiplier_permille as u128;
        assert(a * b <= 0xffff_ffff_ffff_ffffu128 * 0xffff_ffff_ffff_ffffu128) by (nonlinear_arith)
            requires
                a <= 0xffff_ffff_ffff_ffffu128,
                b <= 0xffff_ffff_ffff_ffffu128,
        ;
        let grown = (a * b) / 1000;
        let next = if grown < config.max_delay_ms as u128 {
            grown as u64
        } else {
            config.max_delay_ms
        };
        self.attempt = self.attempt + 1;
        self.delay_ms = next;
        Some(wait)
    }
}

/// How many attempts are made, from state `st` on, when every attempt fails
/// with `e`.
pub open spec fn attempts_from(config: RetryConfig, st: RetryState, e: LazyJiraError) -> nat
    decreases config.max_retries - st.attempt,
{
    match step(config, st, e) {
        None => 1,
        Some((next, _)) => 1 + attempts_from(config, next, e),
    }
}

/// How many attempts are made in all when every attempt fails with `e`.
pub open spec fn attempts_made(config: RetryConfig, e: LazyJiraError) -> nat {
    attempts_from(config, initial_state(config), e)
}

/// An operation that fails with an authentication error is attempted exactly
/// once, whatever the number of retries allowed.
pub proof fn lemma_authentication_failure_single_attempt(config: RetryConfig, e: LazyJiraError)
    requires
        e is Authentication,
    ensures
        attempts_made(config, e) == 1,
{
}

/// An operation that always fails with an error the executor retries is
/// attempted exactly `max_retries + 1` times.
pub proof fn lemma_persistent_failure_attempts(config: RetryConfig, e: LazyJiraError)
    requires
        !stops_retrying(e),
    ensures
        attempts_made(config, e) == config.max_retries + 1,
{
    lemma_attempts_remaining(config, initial_state(config), e);
}

proof fn lemma_attempts_remaining(config: RetryConfig, st: RetryState, e: LazyJiraError)
    requires
        !stops_retrying(e),
        st.attempt <= config.max_retries,
    ensures
        attempts_from(config, st, e) == config.max_retries - st.attempt + 1,
    decreases config.max_retries - st.attempt,
{
    if st.attempt < config.max_retries {
        let next = RetryState { attempt: (st.attempt + 1) as usize, delay_ms: next_delay(config, st.delay_ms) };
        lemma_attempts_remaining(config, next, e);
    }
}

} // verus!
