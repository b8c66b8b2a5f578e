//! The request side of the API client: endpoints, credentials, request bodies,
//! how a response status maps onto success or an error, and how the pieces of
//! a search are put together. Sending requests is the caller's part.
use vstd::prelude::*;
use base64::Engine;
use crate::config::JiraCliConfig;
use crate::error::LazyJiraError;
use crate::json::JsonValue;
use crate::models::Ticket;
use crate::parser::{count_or, count_member, ticket_views};
use crate::text::{decimal, str_eq, u64_to_decimal};

verus! {

/// A page of search results. `total` is what the service reports and is
/// advisory only.
#[derive(Debug, Clone)]
pub struct SearchResult {
    pub start_at: usize,
    pub max_results: usize,
    pub total: usize,
    pub issues: Vec<Ticket>,
}

impl SearchResult {
    /// Whether the service reports results beyond this page.
    pub fn has_more(&self) -> (r: bool)
        ensures
            r == (self.start_at + self.issues@.len() < self.total),
    {
        (self.start_at as u128) + (self.issues.len() as u128) < self.total as u128
    }

    /// Where the next page starts.
    pub fn next_start_at(&self) -> (r: usize)
        requires
            self.start_at + self.issues@.len() <= usize::MAX,
        ensures
            r == self.start_at + self.issues@.len(),
    {
        self.start_at + self.issues.len()
    }
}

/// What a new issue is made of.
#[derive(Debug, Clone)]
pub struct CreateIssueData {
    pub project_key: String,
    pub issue_type: String,
    pub summary: String,
    pub description: Option<String>,
    pub assignee: Option<String>,
    pub priority: Option<String>,
}

/// Fields to change on an issue, by field name.
#[derive(Debug)]
pub struct UpdateIssueData {
    pub fields: Vec<(String, JsonValue)>,
}

/// The standard base64 encoding (with padding) of the UTF-8 bytes of `text`.
pub uninterp spec fn base64_of(text: Seq<char>) -> Seq<char>;

/// Relies on `base64::engine::general_purpose::STANDARD.encode`: the encoding
/// depends on the bytes alone.
#[verifier::external_body]
fn base64_encode(text: &str) -> (r: String)
    ensures
        r@ == base64_of(text@),
{
    base64::engine::general_purpose::STANDARD.encode(text)
}

/// A byte is sent as itself: ASCII letters and digits and `-`, `.`, `_`, `~`.
pub open spec fn url_safe(b: u8) -> bool {
    (48 <= b <= 57) || (65 <= b <= 90) || (97 <= b <= 122) || b == 45 || b == 46 || b == 95 || b
        == 126
}

/// The uppercase hexadecimal digit of a value below 16.
pub open spec fn hex_digit(d: u8) -> char {
    if d < 10 {
        ((d + 48) as u32) as char
    } else {
        ((d + 55) as u32) as char
    }
}

/// Percent-encoding of a byte string.
pub open spec fn percent_encoded(bytes: Seq<u8>) -> Seq<char>
    decreases bytes.len(),
{
    if bytes.len() == 0 {
        Seq::empty()
    } else {
        let b = bytes[0];
        let head = if url_safe(b) {
            seq![(b as u32) as char]
        } else {
            seq!['%', hex_digit(b / 16), hex_digit(b % 16)]
        };
        head + percent_encoded(bytes.drop_first())
    }
}

/// Relies on `urlencoding::encode`: every byte of the UTF-8 text but ASCII
/// letters, digits and `-._~` becomes `%` and two uppercase hex digits.
#[verifier::external_body]
fn url_encode(text: &str) -> (r: String)
    ensures
        r@ == percent_encoded(vstd::string::StringSliceAdditionalSpecFns::spec_bytes(text)),
{
    urlencoding::encode(text).into_owned()
}

/// The `Authorization` header the credentials give, or the message of why
/// there is none.
pub open spec fn auth_header_spec(c: JiraCliConfig) -> Result<Seq<char>, Seq<char>> {
    let t = c.auth.auth_type@;
    if t == "api-token"@ || (t == "basic"@ && c.auth.token is Some) {
        match c.auth.token {
            Some(token) => Ok("Basic "@ + base64_of(c.auth.username@ + ":"@ + token@)),
            None => Err("API token not found in config"@),
        }
    } else if t == "basic"@ {
        Err("Password not found for basic auth"@)
    } else {
        Err("Unsupported auth type: "@ + t)
    }
}

/// Where requests go and how they authenticate.
#[derive(Debug, Clone)]
pub struct ConnectionSettings {
    pub base_url: String,
    pub auth_header: String,
}

impl ConnectionSettings {
    /// Basic authentication with `username:token` for token and basic auth;
    /// any other type, or a missing token, is an authentication error. The
    /// base URL is the instance's REST root unless one is given.
    pub fn from_config(config: &JiraCliConfig, base_url_override: Option<String>) -> (r: Result<
        Self,
        LazyJiraError,
    >)
        ensures
            r is Ok <==> auth_header_spec(*config) is Ok,
            r matches Ok(s) ==> {
                &&& auth_header_spec(*config) == Ok::<Seq<char>, Seq<char>>(s.auth_header@)
                &&& s.base_url@ == match base_url_override {
                    Some(u) => u@,
                    None => "https://"@ + config.instance@ + "/rest/api/3"@,
                }
            },
            r matches Err(e) ==> e is Authentication && auth_header_spec(*config) == Err::<
                Seq<char>,
                Seq<char>,
            >(e.detail_spec()),
    {
        let t = config.auth.auth_type.as_str();
        let auth_header = if str_eq(t, "api-token") || (str_eq(t, "basic")
            && config.auth.token.is_some()) {
            match &config.auth.token {
                Some(token) => {
                    let credentials = config.auth.username.clone().concat(":").concat(token.as_str());
                    String::from_str("Basic ").concat(base64_encode(credentials.as_str()).as_str())
                },
                None => {
                    return Err(
                        LazyJiraError::Authentication(String::from_str("API token not found in config")),
                    );
                },
            }
        } else if str_eq(t, "basic") {
            return Err(
                LazyJiraError::Authentication(String::from_str("Password not found for basic auth")),
            );
        } else {
            return Err(
                LazyJiraError::Authentication(String::from_str("Unsupported auth type: ").concat(t)),
            );
        };
        let base_url = match base_url_override {
            Some(u) => u,
            None => String::from_str("https://").concat(config.instance.as_str()).concat(
                "/rest/api/3",
            ),
        };
        Ok(ConnectionSettings { base_url, auth_header })
    }

    /// The full URL of an endpoint.
    pub fn url(&self, endpoint: &str) -> (r: String)
        ensures
            r@ == self.base_url@ + "/"@ + endpoint@,
    {
        self.base_url.clone().concat("/").concat(endpoint)
    }
}

/// `issue/{key}`: one issue, by key or numeric id.
pub fn issue_endpoint(key: &str) -> (r: String)
    ensures
        r@ == "issue/"@ + key@,
{
    String::from_str("issue/").concat(key)
}

/// `issue/{key}/transitions`.
pub fn transitions_endpoint(key: &str) -> (r: String)
    ensures
        r@ == "issue/"@ + key@ + "/transitions"@,
{
    String::from_str("issue/").concat(key).concat("/transitions")
}

/// `issue/{key}/comment`.
pub fn comments_endpoint(key: &str) -> (r: String)
    ensures
        r@ == "issue/"@ + key@ + "/comment"@,
{
    String::from_str("issue/").concat(key).concat("/comment")
}

/// The query of a search: encoded JQL and the page bounds.
pub open spec fn search_query(jql: Seq<char>, start_at: nat, max_results: nat) -> Seq<char> {
    "?jql="@ + percent_encoded(vstd::utf8::encode_utf8(jql)) + "&startAt="@ + decimal(start_at)
        + "&maxResults="@ + decimal(max_results)
}

/// The search endpoint that lists identifiers only.
pub fn search_endpoint(jql: &str, start_at: usize, max_results: usize) -> (r: String)
    ensures
        r@ == "search/jql"@ + search_query(jql@, start_at as nat, max_results as nat),
{
    String::from_str("search/jql").concat(search_query_text(jql, start_at, max_results).as_str())
}

/// The legacy search endpoint that returns full issues.
pub fn legacy_search_endpoint(jql: &str, start_at: usize, max_results: usize) -> (r: String)
    ensures
        r@ == "search"@ + search_query(jql@, start_at as nat, max_results as nat),
{
    String::from_str("search").concat(search_query_text(jql, start_at, max_results).as_str())
}

fn search_query_text(jql: &str, start_at: usize, max_results: usize) -> (r: String)
    ensures
        r@ == search_query(jql@, start_at as nat, max_results as nat),
{
    String::from_str("?jql=").concat(url_encode(jql).as_str()).concat("&startAt=").concat(
        u64_to_decimal(start_at as u64).as_str(),
    ).concat("&maxResults=").concat(u64_to_decimal(max_results as u64).as_str())
}

/// The error a response status stands for, none for success: whether it is
/// an authentication error, and its text.
pub open spec fn status_error(status: u16, reason: Seq<char>, body: Seq<char>) -> Option<(bool, Seq<char>)> {
    if 200 <= status < 300 {
        None
    } else if status == 401 {
        Some((true, "Unauthorized"@))
    } else if status == 403 {
        Some((true, "Forbidden"@))
    } else if status == 429 {
        Some((false, "429 Too Many Requests"@))
    } else {
        Some((false, "API error ("@ + decimal(status as nat) + " "@ + reason + "): "@ + body))
    }
}

/// Maps a response status onto an error: 401 and 403 are authentication
/// errors, 429 and every other non-success status are API errors whose text
/// carries the status (and for the others the reason and the body).
pub fn response_error(status: u16, reason: &str, body: &str) -> (r: Option<LazyJiraError>)
    ensures
        match status_error(status, reason@, body@) {
            None => r is None,
            Some((true, m)) => r matches Some(LazyJiraError::Authentication(t)) && t@ == m,
            Some((false, m)) => r matches Some(LazyJiraError::Api(t)) && t@ == m,
        },
{
    if 200 <= status && status < 300 {
        None
    } else if status == 401 {
        Some(LazyJiraError::Authentication(String::from_str("Unauthorized")))
    } else if status == 403 {
        Some(LazyJiraError::Authentication(String::from_str("Forbidden")))
    } else if status == 429 {
        Some(LazyJiraError::Api(String::from_str("429 Too Many Requests")))
    } else {
        Some(
            LazyJiraError::Api(
                String::from_str("API error (").concat(u64_to_decimal(status as u64).as_str()).concat(
                    " ",
                ).concat(reason).concat("): ").concat(body),
            ),
        )
    }
}

/// Extra time to wait after a 429 answer, on top of the retry delay.
pub fn rate_limit_penalty_ms(status: u16) -> (r: u64)
    ensures
        r == if status == 429 { 1000u64 } else { 0u64 },
{
    if status == 429 {
        1000
    } else {
        0
    }
}

/// The tickets that were fetched, in order.
pub open spec fn fetched_views(fetched: Seq<Option<Ticket>>) -> Seq<crate::models::TicketView>
    decreases fetched.len(),
{
    if fetched.len() == 0 {
        Seq::empty()
    } else {
        let rest = fetched_views(fetched.drop_last());
        match fetched.last() {
            Some(t) => rest.push(t@),
            None => rest,
        }
    }
}

/// Puts together a search from the identifiers answer and the issues fetched
/// one by one (`None` where a fetch failed, which is skipped). Counts the
/// answer lacks fall back to the request's own, and the total to the number
/// of issues fetched.
pub fn search_result_from_fetches(
    answer: &JsonValue,
    start_at: usize,
    max_results: usize,
    fetched: Vec<Option<Ticket>>,
) -> (r: SearchResult)
    ensures
        ticket_views(r.issues@) == fetched_views(fetched@),
        r.start_at == count_or(*answer, "startAt"@, start_at as u64) as usize,
        r.max_results == count_or(*answer, "maxResults"@, max_results as u64) as usize,
        r.total == count_or(*answer, "total"@, r.issues@.len() as u64) as usize,
{
    let mut issues: Vec<Ticket> = Vec::new();
    let mut i: usize = 0;
    while i < fetched.len()
        invariant
            0 <= i <= fetched@.len(),
            ticket_views(issues@) == fetched_views(fetched@.subrange(0, i as int)),
        decreases fetched@.len() - i,
    {
        assert(fetched@.subrange(0, i + 1).drop_last() =~= fetched@.subrange(0, i as int));
        match &fetched[i] {
            Some(t) => {
                let ghost before = ticket_views(issues@);
                issues.push(t.duplicate());
                assert(ticket_views(issues@) =~= before.push(t@));
            },
            None => {},
        }
        i = i + 1;
    }
    assert(fetched@.subrange(0, fetched@.len() as int) =~= fetched@);
    let start_at = count_member(answer, "startAt", start_at as u64) as usize;
    let max_results = count_member(answer, "maxResults", max_results as u64) as usize;
    let total = count_member(answer, "total", issues.len() as u64) as usize;
    SearchResult { start_at, max_results, total, issues }
}

} // verus!
