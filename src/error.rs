//! The library's error kinds.
use vstd::prelude::*;

verus! {

/// What can go wrong while talking to the tracker or reading its answers.
#[derive(Debug, Clone, PartialEq, Eq)]
pub enum LazyJiraError {
    /// The transport failed before a response arrived.
    Network(String),
    /// The service refused the credentials (401 or 403).
    Authentication(String),
    /// Caller-supplied input is malformed.
    Validation(String),
    /// The service answered with a non-success status; the text encodes it.
    Api(String),
    /// The configuration is incomplete or unreadable.
    Config(String),
    /// Local input or output failed.
    Io(String),
    /// A response could not be decoded; the text names the field.
    Parse(String),
    /// A path that is not implemented yet.
    Internal(String),
}

impl LazyJiraError {
    /// The prefix that `message` puts before the carried text.
    pub open spec fn prefix_spec(&self) -> Seq<char> {
        match self {
            LazyJiraError::Network(_) => "Network error: "@,
            LazyJiraError::Authentication(_) => "Authentication error: "@,
            LazyJiraError::Validation(_) => "Validation error: "@,
            LazyJiraError::Api(_) => "API error: "@,
            LazyJiraError::Config(_) => "Configuration error: "@,
            LazyJiraError::Io(_) => "IO error: "@,
            LazyJiraError::Parse(_) => "Parse error: "@,
            LazyJiraError::Internal(_) => "Internal error: "@,
        }
    }

    /// The text the error carries.
    pub open spec fn detail_spec(&self) -> Seq<char> {
        match self {
            LazyJiraError::Network(m) => m@,
            LazyJiraError::Authentication(m) => m@,
            LazyJiraError::Validation(m) => m@,
            LazyJiraError::Api(m) => m@,
            LazyJiraError::Config(m) => m@,
            LazyJiraError::Io(m) => m@,
            LazyJiraError::Parse(m) => m@,
            LazyJiraError::Internal(m) => m@,
        }
    }

    /// The text the error carries.
    pub fn detail(&self) -> (r: &str)
        ensures
            r@ == self.detail_spec(),
    {
        match self {
            LazyJiraError::Network(m) => m.as_str(),
            LazyJiraError::Authentication(m) => m.as_str(),
            LazyJiraError::Validation(m) => m.as_str(),
            LazyJiraError::Api(m) => m.as_str(),
            LazyJiraError::Config(m) => m.as_str(),
            LazyJiraError::Io(m) => m.as_str(),
            LazyJiraError::Parse(m) => m.as_str(),
            LazyJiraError::Internal(m) => m.as_str(),
        }
    }

    /// A user-facing description: the kind of error followed by its text.
    pub fn message(&self) -> (r: String)
        ensures
            r@ == self.prefix_spec() + self.detail_spec(),
    {
        let prefix = match self {
            LazyJiraError::Network(_) => "Network error: ",
            LazyJiraError::Authentication(_) => "Authentication error: ",
            LazyJiraError::Validation(_) => "Validation error: ",
            LazyJiraError::Api(_) => "API error: ",
            LazyJiraError::Config(_) => "Configuration error: ",
            LazyJiraError::Io(_) => "IO error: ",
            LazyJiraError::Parse(_) => "Parse error: ",
            LazyJiraError::Internal(_) => "Internal error: ",
        };
        String::from_str(prefix).concat(self.detail())
    }

    /// A copy with the same kind and text.
    pub fn duplicate(&self) -> (r: Self)
        ensures
            r == *self,
    {
        match self {
            LazyJiraError::Network(m) => LazyJiraError::Network(m.clone()),
            LazyJiraError::Authentication(m) => LazyJiraError::Authentication(m.clone()),
            LazyJiraError::Validation(m) => LazyJiraError::Validation(m.clone()),
            LazyJiraError::Api(m) => LazyJiraError::Api(m.clone()),
            LazyJiraError::Config(m) => LazyJiraError::Config(m.clone()),
            LazyJiraError::Io(m) => LazyJiraError::Io(m.clone()),
            LazyJiraError::Parse(m) => LazyJiraError::Parse(m.clone()),
            LazyJiraError::Internal(m) => LazyJiraError::Internal(m.clone()),
        }
    }
}

} // verus!
