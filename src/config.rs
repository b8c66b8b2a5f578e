//! Configuration: the application's own settings and the credentials read
//! from the tracker's command-line tool. Reading files and the environment is
//! left to the caller; this module decides what the values mean.
use vstd::prelude::*;
use crate::text::{before_char, replace_all, replace_str, starts_with, trim, trims_to, prefix_before, matches_at, str_eq};

verus! {

/// The application's settings.
#[derive(Debug, Clone)]
pub struct Config {
    pub jira: JiraConfig,
    pub ui: UiConfig,
}

#[derive(Debug, Clone)]
pub struct JiraConfig {
    pub instance: String,
    pub username: Option<String>,
}

#[derive(Debug, Clone)]
pub struct UiConfig {
    pub theme: String,
    pub show_avatars: bool,
    pub compact_mode: bool,
    pub refresh_interval: u64,
}

pub fn default_theme() -> (r: String)
    ensures
        r@ == "default"@,
{
    String::from_str("default")
}

pub fn default_true() -> (r: bool)
    ensures
        r,
{
    true
}

pub fn default_false() -> (r: bool)
    ensures
        !r,
{
    false
}

/// Seconds between refreshes.
pub fn default_refresh_interval() -> (r: u64)
    ensures
        r == 30,
{
    30
}

impl Default for UiConfig {
    fn default() -> (r: Self)
        ensures
            r.theme@ == "default"@,
            r.show_avatars,
            !r.compact_mode,
            r.refresh_interval == 30,
    {
        UiConfig {
            theme: default_theme(),
            show_avatars: default_true(),
            compact_mode: default_false(),
            refresh_interval: default_refresh_interval(),
        }
    }
}

impl Default for Config {
    fn default() -> (r: Self)
        ensures
            r.jira.instance@.len() == 0,
            r.jira.username is None,
            r.ui.theme@ == "default"@,
            r.ui.show_avatars,
            !r.ui.compact_mode,
            r.ui.refresh_interval == 30,
    {
        Config {
            jira: JiraConfig { instance: String::new(), username: None },
            ui: UiConfig::default(),
        }
    }
}

/// Where and how to connect, as the command-line tool configures it.
#[derive(Debug, Clone)]
pub struct JiraCliConfig {
    pub instance: String,
    pub auth: JiraCliAuth,
}

#[derive(Debug, Clone)]
pub struct JiraCliAuth {
    pub auth_type: String,
    pub username: String,
    pub token: Option<String>,
}

/// The host of a configured instance: surrounding white space removed and,
/// for a URL, the scheme and any path dropped.
pub open spec fn instance_host(trimmed: Seq<char>) -> Seq<char> {
    if starts_with(trimmed, "http://"@) || starts_with(trimmed, "https://"@) {
        prefix_before(replace_all(replace_all(trimmed, "https://"@, Seq::empty()), "http://"@, Seq::empty()), '/')
    } else {
        trimmed
    }
}

/// The host of a configured instance or server value.
pub fn normalize_instance(raw: &str) -> (r: String)
    ensures
        exists|t: Seq<char>| trims_to(raw@, t) && r@ == instance_host(t),
{
    let s = trim(raw);
    if matches_at(s, "http://", 0) || matches_at(s, "https://", 0) {
        proof {
            reveal_strlit("https://");
            reveal_strlit("http://");
            reveal_strlit("");
        }
        let without_https = replace_str(s, "https://", "");
        let without_http = replace_str(without_https.as_str(), "http://", "");
        let r = before_char(without_http.as_str(), '/');
        assert(""@ =~= Seq::<char>::empty());
        assert(r@ == instance_host(s@));
        r
    } else {
        let r = String::from_str(s);
        assert(r@ == instance_host(s@));
        r
    }
}

/// The values the command-line tool's configuration and environment supply.
pub struct CliSettings {
    /// The `instance` (or else `server`) value.
    pub instance: Option<String>,
    /// Whether the file has a nested `auth` object, and its members.
    pub has_auth_section: bool,
    pub auth_type: Option<String>,
    pub auth_username: Option<String>,
    pub auth_token: Option<String>,
    /// A top-level `auth_type` value.
    pub top_auth_type: Option<String>,
    /// `JIRA_API_TOKEN`, `JIRA_USERNAME` and `JIRA_PASSWORD`.
    pub env_api_token: Option<String>,
    pub env_username: Option<String>,
    pub env_password: Option<String>,
    /// The user name the tool reports (`jira me`), trimmed.
    pub cli_username: Option<String>,
}

/// A top-level auth type takes the token route when it says so or when a token
/// is in the environment.
pub open spec fn token_route(s: CliSettings) -> bool {
    match s.top_auth_type {
        Some(t) => t@ == "api-token"@ || s.env_api_token is Some,
        None => false,
    }
}

/// Whether resolving the settings consults the tool's own user name.
pub open spec fn consults_cli_username(s: CliSettings) -> bool {
    !s.has_auth_section && token_route(s) && s.env_username is None
}

/// The credentials the settings describe, in the order the tool's formats
/// are tried: a nested auth object with type and username; else a top-level
/// auth type with credentials from the environment.
pub open spec fn auth_spec(s: CliSettings) -> Option<(Seq<char>, Seq<char>, Option<String>)> {
    if s.has_auth_section {
        match (s.auth_type, s.auth_username) {
            (Some(t), Some(u)) => Some((t@, u@, s.auth_token)),
            _ => None,
        }
    } else {
        match s.top_auth_type {
            None => None,
            Some(t) => {
                if token_route(s) {
                    let user = match s.env_username {
                        Some(u) => Some(u),
                        None => s.cli_username,
                    };
                    match user {
                        Some(u) => Some(("api-token"@, u@, s.env_api_token)),
                        None => None,
                    }
                } else {
                    match s.env_username {
                        Some(u) => Some((t@, u@, s.env_password)),
                        None => None,
                    }
                }
            },
        }
    }
}

impl CliSettings {
    /// Whether `resolve` will look at the tool's own user name, so the caller
    /// asks the tool only when needed.
    pub fn needs_cli_username(&self) -> (r: bool)
        ensures
            r == consults_cli_username(*self),
    {
        !self.has_auth_section && self.takes_token_route() && self.env_username.is_none()
    }

    fn takes_token_route(&self) -> (r: bool)
        ensures
            r == token_route(*self),
    {
        match &self.top_auth_type {
            Some(t) => str_eq(t.as_str(), "api-token") || self.env_api_token.is_some(),
            None => false,
        }
    }

    /// The configuration the settings describe: nothing unless both an
    /// instance and credentials are there.
    pub fn resolve(&self) -> (r: Option<JiraCliConfig>)
        ensures
            r is Some <==> (self.instance is Some && auth_spec(*self) is Some),
            r matches Some(c) ==> {
                &&& exists|t: Seq<char>| trims_to(self.instance->0@, t) && c.instance@ == instance_host(t)
                &&& auth_spec(*self) == Some((c.auth.auth_type@, c.auth.username@, c.auth.token))
            },
    {
        let instance = match &self.instance {
            Some(i) => normalize_instance(i.as_str()),
            None => {
                return None;
            },
        };
        let auth = if self.has_auth_section {
            match (&self.auth_type, &self.auth_username) {
                (Some(t), Some(u)) => Some(
                    JiraCliAuth {
                        auth_type: t.clone(),
                        username: u.clone(),
                        token: crate::text::clone_opt(&self.auth_token),
                    },
                ),
                _ => None,
            }
        } else {
            match &self.top_auth_type {
                None => None,
                Some(t) => {
                    if self.takes_token_route() {
                        let user = match &self.env_username {
                            Some(u) => Some(u.clone()),
                            None => crate::text::clone_opt(&self.cli_username),
                        };
                        match user {
                            Some(u) => Some(
                                JiraCliAuth {
                                    auth_type: String::from_str("api-token"),
                                    username: u,
                                    token: crate::text::clone_opt(&self.env_api_token),
                                },
                            ),
                            None => None,
                        }
                    } else {
                        match &self.env_username {
                            Some(u) => Some(
                                JiraCliAuth {
                                    auth_type: t.clone(),
                                    username: u.clone(),
                                    token: crate::text::clone_opt(&self.env_password),
                                },
                            ),
                            None => None,
                        }
                    }
                },
            }
        };
        match auth {
            Some(auth) => Some(JiraCliConfig { instance, auth }),
            None => None,
        }
    }
}

} // verus!
