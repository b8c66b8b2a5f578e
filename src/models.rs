//! Issues, statuses, users, comments and the other entities of the tracker.
use vstd::prelude::*;
use crate::text::{opt_view, clone_opt, before_char, prefix_before};
use crate::time::{Timestamp, now_timestamp};

verus! {

/// A user of the tracker.
#[derive(Debug, Clone, PartialEq, Eq)]
pub struct User {
    pub account_id: String,
    pub display_name: String,
    pub email_address: Option<String>,
}

pub struct UserView {
    pub account_id: Seq<char>,
    pub display_name: Seq<char>,
    pub email_address: Option<Seq<char>>,
}

impl View for User {
    type V = UserView;

    open spec fn view(&self) -> UserView {
        UserView {
            account_id: self.account_id@,
            display_name: self.display_name@,
            email_address: opt_view(self.email_address),
        }
    }
}

impl User {
    pub fn new(account_id: String, display_name: String) -> (r: Self)
        ensures
            r.account_id == account_id,
            r.display_name == display_name,
            r.email_address is None,
    {
        User { account_id, display_name, email_address: None }
    }

    /// A copy equal to this user.
    pub fn duplicate(&self) -> (r: Self)
        ensures
            r == *self,
    {
        User {
            account_id: self.account_id.clone(),
            display_name: self.display_name.clone(),
            email_address: clone_opt(&self.email_address),
        }
    }
}

/// The coarse, closed classification of a workflow status.
#[derive(Debug, Clone, Copy, PartialEq, Eq, Structural)]
pub enum StatusCategory {
    ToDo,
    InProgress,
    Done,
}

/// A workflow status: its identity, its name and its category.
#[derive(Debug, Clone, PartialEq, Eq)]
pub struct Status {
    pub id: String,
    pub name: String,
    pub category: StatusCategory,
}

pub struct StatusView {
    pub id: Seq<char>,
    pub name: Seq<char>,
    pub category: StatusCategory,
}

impl View for Status {
    type V = StatusView;

    open spec fn view(&self) -> StatusView {
        StatusView { id: self.id@, name: self.name@, category: self.category }
    }
}

impl Status {
    /// A copy equal to this status.
    pub fn duplicate(&self) -> (r: Self)
        ensures
            r == *self,
    {
        Status { id: self.id.clone(), name: self.name.clone(), category: self.category }
    }
}

/// Issue priority, in increasing order.
#[derive(Debug, Clone, Copy, PartialEq, Eq, Structural, PartialOrd, Ord)]
pub enum Priority {
    Lowest,
    Low,
    Medium,
    High,
    Highest,
    Critical,
}

impl Priority {
    /// The position of the level in the order Lowest < ... < Critical.
    pub open spec fn rank(self) -> int {
        match self {
            Priority::Lowest => 0,
            Priority::Low => 1,
            Priority::Medium => 2,
            Priority::High => 3,
            Priority::Highest => 4,
            Priority::Critical => 5,
        }
    }

    /// The position of the level in the order Lowest < ... < Critical.
    pub fn level(&self) -> (r: u8)
        ensures
            r as int == self.rank(),
    {
        match self {
            Priority::Lowest => 0,
            Priority::Low => 1,
            Priority::Medium => 2,
            Priority::High => 3,
            Priority::Highest => 4,
            Priority::Critical => 5,
        }
    }
}

/// A snapshot of an issue.
#[derive(Debug, Clone, PartialEq, Eq)]
pub struct Ticket {
    pub id: String,
    pub key: String,
    pub summary: String,
    pub status: Status,
    pub assignee: Option<User>,
    pub priority: Priority,
    pub issue_type: String,
    pub project_key: String,
    pub description: Option<String>,
    pub created: Timestamp,
    pub updated: Timestamp,
}

pub struct TicketView {
    pub id: Seq<char>,
    pub key: Seq<char>,
    pub summary: Seq<char>,
    pub status: StatusView,
    pub assignee: Option<UserView>,
    pub priority: Priority,
    pub issue_type: Seq<char>,
    pub project_key: Seq<char>,
    pub description: Option<Seq<char>>,
    pub created: Timestamp,
    pub updated: Timestamp,
}

/// The view of an optional user.
pub open spec fn opt_user_view(u: Option<User>) -> Option<UserView> {
    match u {
        Some(u) => Some(u@),
        None => None,
    }
}

impl View for Ticket {
    type V = TicketView;

    open spec fn view(&self) -> TicketView {
        TicketView {
            id: self.id@,
            key: self.key@,
            summary: self.summary@,
            status: self.status@,
            assignee: opt_user_view(self.assignee),
            priority: self.priority,
            issue_type: self.issue_type@,
            project_key: self.project_key@,
            description: opt_view(self.description),
            created: self.created,
            updated: self.updated,
        }
    }
}

/// Relies on `uuid::Uuid::new_v4` and its `Display`: a fresh random identifier,
/// about which nothing is promised.
#[verifier::external_body]
fn fresh_identifier() -> (r: String) {
    uuid::Uuid::new_v4().to_string()
}

impl Ticket {
    /// A local ticket: project key taken from the key's part before the first
    /// `-`, priority Medium, type Task, a fresh identifier and the current time.
    pub fn new(key: String, summary: String, status: Status) -> (r: Self)
        ensures
            r.key == key,
            r.summary == summary,
            r.status == status,
            r.assignee is None,
            r.priority == Priority::Medium,
            r.issue_type@ == "Task"@,
            r.project_key@ == prefix_before(key@, '-'),
            r.description is None,
    {
        let project_key = before_char(key.as_str(), '-');
        let now = now_timestamp();
        Ticket {
            id: fresh_identifier(),
            key,
            summary,
            status,
            assignee: None,
            priority: Priority::Medium,
            issue_type: String::from_str("Task"),
            project_key,
            description: None,
            created: now,
            updated: now,
        }
    }

    pub fn is_done(&self) -> (r: bool)
        ensures
            r == (self.status.category == StatusCategory::Done),
    {
        self.status.category == StatusCategory::Done
    }

    pub fn is_in_progress(&self) -> (r: bool)
        ensures
            r == (self.status.category == StatusCategory::InProgress),
    {
        self.status.category == StatusCategory::InProgress
    }

    pub fn is_todo(&self) -> (r: bool)
        ensures
            r == (self.status.category == StatusCategory::ToDo),
    {
        self.status.category == StatusCategory::ToDo
    }

    /// A copy equal to this ticket.
    pub fn duplicate(&self) -> (r: Self)
        ensures
            r == *self,
    {
        let assignee = match &self.assignee {
            Some(u) => Some(u.duplicate()),
            None => None,
        };
        Ticket {
            id: self.id.clone(),
            key: self.key.clone(),
            summary: self.summary.clone(),
            status: self.status.duplicate(),
            assignee,
            priority: self.priority,
            issue_type: self.issue_type.clone(),
            project_key: self.project_key.clone(),
            description: clone_opt(&self.description),
            created: self.created,
            updated: self.updated,
        }
    }
}

/// A comment on an issue, its body flattened to plain text.
#[derive(Debug, Clone, PartialEq, Eq)]
pub struct Comment {
    pub id: String,
    pub author: User,
    pub body: String,
    pub created: Timestamp,
    pub updated: Option<Timestamp>,
}

pub struct CommentView {
    pub id: Seq<char>,
    pub author: UserView,
    pub body: Seq<char>,
    pub created: Timestamp,
    pub updated: Option<Timestamp>,
}

impl View for Comment {
    type V = CommentView;

    open spec fn view(&self) -> CommentView {
        CommentView {
            id: self.id@,
            author: self.author@,
            body: self.body@,
            created: self.created,
            updated: self.updated,
        }
    }
}

impl Comment {
    pub fn new(id: String, author: User, body: String, created: Timestamp) -> (r: Self)
        ensures
            r.id == id,
            r.author == author,
            r.body == body,
            r.created == created,
            r.updated is None,
    {
        Comment { id, author, body, created, updated: None }
    }
}

/// An edge of the workflow graph available from an issue's current status.
#[derive(Debug, Clone, PartialEq, Eq)]
pub struct Transition {
    pub id: String,
    pub name: String,
    pub to_status: String,
}

pub struct TransitionView {
    pub id: Seq<char>,
    pub name: Seq<char>,
    pub to_status: Seq<char>,
}

impl View for Transition {
    type V = TransitionView;

    open spec fn view(&self) -> TransitionView {
        TransitionView { id: self.id@, name: self.name@, to_status: self.to_status@ }
    }
}

impl Transition {
    /// A copy equal to this transition.
    pub fn duplicate(&self) -> (r: Self)
        ensures
            r == *self,
    {
        Transition { id: self.id.clone(), name: self.name.clone(), to_status: self.to_status.clone() }
    }
}

/// A board of the tracker.
#[derive(Debug, Clone)]
pub struct Board {
    pub id: String,
    pub name: String,
    pub board_type: BoardType,
}

#[derive(Debug, Clone, Copy, PartialEq, Eq, Structural)]
pub enum BoardType {
    Scrum,
    Kanban,
}

/// A sprint of a board.
#[derive(Debug, Clone)]
pub struct Sprint {
    pub id: String,
    pub name: String,
    pub state: SprintState,
    pub start_date: Option<Timestamp>,
    pub end_date: Option<Timestamp>,
}

#[derive(Debug, Clone, Copy, PartialEq, Eq, Structural)]
pub enum SprintState {
    Future,
    Active,
    Closed,
}

} // verus!
