//! The application state machine. It alone owns the view state; each input
//! event and each finished request moves it on and names the next request,
//! which the caller performs (concurrent sub-requests of one event joined)
//! before handing the outcome back.
use vstd::prelude::*;
use crate::client::SearchResult;
use crate::error::LazyJiraError;
use crate::events::AppEvent;
use crate::lists::{TicketListState, TransitionListState};
use crate::models::{Comment, Ticket, Transition};
use crate::text::{contains_str, has_substring};

verus! {

/// Where the ticket list's loading stands.
#[derive(Debug, Clone, PartialEq, Eq)]
pub enum LoadingState {
    Idle,
    Loading,
    Loaded,
    Error(String),
}

/// The view on screen.
#[derive(Debug, Clone, Copy, PartialEq, Eq, Structural)]
pub enum Screen {
    List,
    Detail,
    Transitions,
    CreateTicket,
}

/// Which transition a shortcut looks for.
#[derive(Debug, Clone, Copy, PartialEq, Eq, Structural)]
pub enum TransitionGoal {
    /// Named like "start", or leading to a status named like "progress".
    StartProgress,
    /// Named like "resolve" or "done", or leading to a status named like "done".
    Resolve,
}

/// How a transition was chosen.
#[derive(Debug, Clone, Copy, PartialEq, Eq, Structural)]
pub enum TransitionOrigin {
    /// Confirmed in the transitions view.
    Picked,
    /// Found by a shortcut from the detail view.
    Shortcut,
}

/// What to do once the detail issue has been fetched again.
#[derive(Debug, Clone, Copy, PartialEq, Eq, Structural)]
pub enum AfterRefresh {
    Nothing,
    ReloadList,
    ReloadListIfFetched,
}

/// The request the caller performs next, and the method to hand its outcome to.
#[derive(Debug, Clone, PartialEq, Eq)]
pub enum Action {
    /// Nothing to request.
    Done,
    /// Search the default query (first page of 50): `finish_load_tickets`.
    LoadTickets,
    /// Fetch the issue and its comments concurrently, join: `finish_detail`.
    FetchDetail { key: String },
    /// List the issue's transitions: `finish_transitions`.
    FetchTransitions { key: String },
    /// List the issue's transitions for a shortcut: `finish_goal_lookup`.
    FindTransition { key: String, goal: TransitionGoal },
    /// Execute a transition: `finish_transition`.
    ExecuteTransition { key: String, transition_id: String, origin: TransitionOrigin },
    /// Fetch the issue again: `finish_refresh`.
    RefreshIssue { key: String, then: AfterRefresh },
    /// Open the issue in a browser.
    OpenUrl { url: String },
}

/// The query the ticket list shows.
pub const DEFAULT_JQL: &'static str = "assignee = currentUser() ORDER BY updated DESC";

/// The page size of the ticket list.
pub const PAGE_SIZE: usize = 50;

/// The single owner of the view state.
pub struct App {
    pub running: bool,
    pub connection_status: String,
    pub ticket_list_state: TicketListState,
    pub loading_state: LoadingState,
    pub view_mode: Screen,
    pub detail_ticket: Option<Ticket>,
    pub detail_comments: Vec<Comment>,
    pub detail_loading: bool,
    pub transition_list_state: TransitionListState,
    pub transitions_loading: bool,
    pub current_ticket_key: Option<String>,
    pub instance_url: String,
}

/// Whether a transition, seen through lowercased name and destination,
/// suits the goal.
pub open spec fn suits(goal: TransitionGoal, name: Seq<char>, to: Seq<char>) -> bool {
    match goal {
        TransitionGoal::StartProgress => has_substring(name, "start"@) || has_substring(to, "progress"@),
        TransitionGoal::Resolve => has_substring(name, "resolve"@) || has_substring(name, "done"@)
            || has_substring(to, "done"@),
    }
}

/// The lowercase form of `s`, as `str::to_lowercase` gives it.
pub uninterp spec fn lower_of(s: Seq<char>) -> Seq<char>;

/// Relies on `str::to_lowercase`: the result depends on the characters alone.
#[verifier::external_body]
pub(crate) fn lowercase(s: &str) -> (r: String)
    ensures
        r@ == lower_of(s@),
{
    s.to_lowercase()
}

/// Whether a transition suits the goal, given its lowercased name and
/// destination.
pub fn suits_goal(goal: TransitionGoal, lowered_name: &str, lowered_to: &str) -> (r: bool)
    ensures
        r == suits(goal, lowered_name@, lowered_to@),
{
    match goal {
        TransitionGoal::StartProgress => contains_str(lowered_name, "start") || contains_str(
            lowered_to,
            "progress",
        ),
        TransitionGoal::Resolve => contains_str(lowered_name, "resolve") || contains_str(
            lowered_name,
            "done",
        ) || contains_str(lowered_to, "done"),
    }
}

/// The first transition that suits the goal.
pub fn find_transition(goal: TransitionGoal, transitions: &Vec<Transition>) -> (r: Option<usize>)
    ensures
        match r {
            Some(i) => i < transitions@.len() && suits(goal, lower_of(transitions@[i as int].name@), lower_of(transitions@[i as int].to_status@))
                && forall|j: int| 0 <= j < i ==> !suits(goal, lower_of(transitions@[j].name@), lower_of(transitions@[j].to_status@)),
            None => forall|j: int| 0 <= j < transitions@.len() ==> !suits(goal, lower_of(transitions@[j].name@), lower_of(transitions@[j].to_status@)),
        },
{
    let mut i: usize = 0;
    while i < transitions.len()
        invariant
            0 <= i <= transitions@.len(),
            forall|j: int| 0 <= j < i ==> !suits(goal, lower_of(transitions@[j].name@), lower_of(transitions@[j].to_status@)),
        decreases transitions@.len() - i,
    {
        let t = &transitions[i];
        let name = lowercase(t.name.as_str());
        let to = lowercase(t.to_status.as_str());
        if suits_goal(goal, name.as_str(), to.as_str()) {
            return Some(i);
        }
        i = i + 1;
    }
    None
}

/// The detail-scoped state is empty.
pub open spec fn detail_cleared(a: App) -> bool {
    &&& a.detail_ticket is None
    &&& a.detail_comments@.len() == 0
    &&& a.transition_list_state.transitions@.len() == 0
    &&& a.transition_list_state.focused_index is None
    &&& a.current_ticket_key is None
}

impl App {
    pub fn new(connection_status: String, instance_url: String) -> (r: Self)
        ensures
            r.running,
            r.connection_status == connection_status,
            r.instance_url == instance_url,
            r.loading_state is Idle,
            r.view_mode == Screen::List,
            r.ticket_list_state.tickets@.len() == 0,
            r.ticket_list_state.focused_index is None,
            detail_cleared(r),
            !r.detail_loading,
            !r.transitions_loading,
    {
        App {
            running: true,
            connection_status,
            ticket_list_state: TicketListState::new(),
            loading_state: LoadingState::Idle,
            view_mode: Screen::List,
            detail_ticket: None,
            detail_comments: Vec::new(),
            detail_loading: false,
            transition_list_state: TransitionListState::new(),
            transitions_loading: false,
            current_ticket_key: None,
            instance_url,
        }
    }

    /// Starts (re)loading the ticket list.
    pub fn begin_load_tickets(&mut self) -> (r: Action)
        ensures
            r == Action::LoadTickets,
            final(self).loading_state is Loading,
            final(self).view_mode == old(self).view_mode,
            final(self).running == old(self).running,
            final(self).current_ticket_key == old(self).current_ticket_key,
            final(self).detail_ticket == old(self).detail_ticket,
    {
        self.loading_state = LoadingState::Loading;
        Action::LoadTickets
    }

    /// Merges the outcome of loading the list: the tickets replace the list
    /// (focus on the first, selection cleared), or the error is shown.
    pub fn finish_load_tickets(&mut self, result: Result<SearchResult, LazyJiraError>)
        ensures
            final(self).view_mode == old(self).view_mode,
            final(self).running == old(self).running,
            final(self).detail_ticket == old(self).detail_ticket,
            final(self).current_ticket_key == old(self).current_ticket_key,
            match result {
                Ok(page) => {
                    &&& final(self).loading_state is Loaded
                    &&& final(self).ticket_list_state.tickets == page.issues
                    &&& final(self).ticket_list_state.focused_index == crate::lists::first_focus(page.issues@.len())
                    &&& final(self).ticket_list_state.selected_indices@.is_empty()
                },
                Err(e) => {
                    &&& final(self).loading_state matches LoadingState::Error(m) && m@ == "Failed to load tickets: "@
                        + e.prefix_spec() + e.detail_spec()
                    &&& final(self).ticket_list_state.tickets == old(self).ticket_list_state.tickets
                },
            },
    {
        match result {
            Ok(page) => {
                self.ticket_list_state.set_tickets(page.issues);
                self.loading_state = LoadingState::Loaded;
            },
            Err(e) => {
                self.loading_state = LoadingState::Error(
                    String::from_str("Failed to load tickets: ").concat(e.message().as_str()),
                );
            },
        }
    }

    /// Opens the focused ticket: the detail view shows as loading and the
    /// issue and its comments are to be fetched together.
    fn open_detail_view(&mut self) -> (r: Action)
        ensures
            match old(self).ticket_list_state.focused_ticket_spec() {
                Some(t) => {
                    &&& r == Action::FetchDetail { key: t.key }
                    &&& final(self).view_mode == Screen::Detail
                    &&& final(self).detail_loading
                    &&& final(self).detail_ticket is None
                    &&& final(self).detail_comments@.len() == 0
                    &&& final(self).current_ticket_key == Some(t.key)
                },
                None => r == Action::Done && *final(self) == *old(self),
            },
            final(self).ticket_list_state == old(self).ticket_list_state,
            final(self).running == old(self).running,
    {
        match self.ticket_list_state.focused_ticket() {
            Some(ticket) => {
                let key = ticket.key.clone();
                self.view_mode = Screen::Detail;
                self.detail_loading = true;
                self.detail_ticket = None;
                self.detail_comments = Vec::new();
                self.current_ticket_key = Some(key.clone());
                Action::FetchDetail { key }
            },
            None => Action::Done,
        }
    }

    /// Merges the joined outcomes of fetching the issue and its comments. A
    /// failed issue fetch falls back to the focused list row; failed comments
    /// leave the comment list empty.
    pub fn finish_detail(
        &mut self,
        ticket: Result<Ticket, LazyJiraError>,
        comments: Result<Vec<Comment>, LazyJiraError>,
    )
        ensures
            !final(self).detail_loading,
            final(self).view_mode == old(self).view_mode,
            final(self).current_ticket_key == old(self).current_ticket_key,
            final(self).ticket_list_state == old(self).ticket_list_state,
            final(self).running == old(self).running,
            match ticket {
                Ok(t) => final(self).detail_ticket == Some(t),
                Err(_) => final(self).detail_ticket == match old(self).ticket_list_state.focused_ticket_spec() {
                    Some(row) => Some(row),
                    None => None,
                },
            },
            match comments {
                Ok(c) => final(self).detail_comments == c,
                Err(_) => final(self).detail_comments@.len() == 0,
            },
    {
        match ticket {
            Ok(t) => {
                self.detail_ticket = Some(t);
            },
            Err(_) => {
                self.detail_ticket = match self.ticket_list_state.focused_ticket() {
                    Some(row) => Some(row.duplicate()),
                    None => None,
                };
            },
        }
        match comments {
            Ok(c) => {
                self.detail_comments = c;
            },
            Err(_) => {
                self.detail_comments = Vec::new();
            },
        }
        self.detail_loading = false;
    }

    /// Merges the list of transitions; on failure the list is empty. Loading
    /// is over either way.
    pub fn finish_transitions(&mut self, result: Result<Vec<Transition>, LazyJiraError>)
        ensures
            !final(self).transitions_loading,
            final(self).view_mode == old(self).view_mode,
            final(self).current_ticket_key == old(self).current_ticket_key,
            final(self).detail_ticket == old(self).detail_ticket,
            match result {
                Ok(ts) => final(self).transition_list_state.transitions == ts,
                Err(_) => final(self).transition_list_state.transitions@.len() == 0,
            },
            final(self).transition_list_state.focused_index == crate::lists::first_focus(
                final(self).transition_list_state.transitions@.len(),
            ),
    {
        match result {
            Ok(ts) => {
                self.transition_list_state.set_transitions(ts);
            },
            Err(_) => {
                self.transition_list_state.set_transitions(Vec::new());
            },
        }
        self.transitions_loading = false;
    }

    /// Picks the transition a shortcut asked for, if the lookup succeeded and
    /// one suits; the state does not change.
    pub fn finish_goal_lookup(
        &self,
        key: String,
        goal: TransitionGoal,
        result: Result<Vec<Transition>, LazyJiraError>,
    ) -> (r: Action)
        ensures
            match result {
                Ok(ts) => match r {
                    Action::ExecuteTransition { key: k, transition_id, origin } => {
                        &&& k == key
                        &&& origin == TransitionOrigin::Shortcut
                        &&& exists|i: int| 0 <= i < ts@.len() && ts@[i].id == transition_id
                            && suits(goal, lower_of(ts@[i].name@), lower_of(ts@[i].to_status@))
                            && forall|j: int| 0 <= j < i ==> !suits(goal, lower_of(ts@[j].name@), lower_of(ts@[j].to_status@))
                    },
                    Action::Done => forall|j: int| 0 <= j < ts@.len() ==> !suits(goal, lower_of(ts@[j].name@), lower_of(ts@[j].to_status@)),
                    _ => false,
                },
                Err(_) => r == Action::Done,
            },
    {
        match result {
            Ok(ts) => match find_transition(goal, &ts) {
                Some(i) => Action::ExecuteTransition {
                    key,
                    transition_id: ts[i].id.clone(),
                    origin: TransitionOrigin::Shortcut,
                },
                None => Action::Done,
            },
            Err(_) => Action::Done,
        }
    }

    /// Merges the outcome of executing a transition. On failure nothing
    /// changes. On success a picked transition returns to the detail view,
    /// and the issue is fetched again: then the list is reloaded (for a
    /// shortcut only if the fetch worked).
    pub fn finish_transition(
        &mut self,
        key: String,
        origin: TransitionOrigin,
        result: Result<(), LazyJiraError>,
    ) -> (r: Action)
        ensures
            result is Err ==> r == Action::Done && *final(self) == *old(self),
            result is Ok ==> {
                &&& r == Action::RefreshIssue {
                    key,
                    then: if origin == TransitionOrigin::Picked {
                        AfterRefresh::ReloadList
                    } else {
                        AfterRefresh::ReloadListIfFetched
                    },
                }
                &&& final(self).view_mode == if origin == TransitionOrigin::Picked {
                    Screen::Detail
                } else {
                    old(self).view_mode
                }
                &&& final(self).detail_ticket == old(self).detail_ticket
                &&& final(self).current_ticket_key == old(self).current_ticket_key
            },
    {
        match result {
            Err(_) => Action::Done,
            Ok(()) => {
                if origin == TransitionOrigin::Picked {
                    self.view_mode = Screen::Detail;
                    Action::RefreshIssue { key, then: AfterRefresh::ReloadList }
                } else {
                    Action::RefreshIssue { key, then: AfterRefresh::ReloadListIfFetched }
                }
            },
        }
    }

    /// Merges a fresh copy of the detail issue, then starts reloading the list
    /// when asked to.
    pub fn finish_refresh(&mut self, result: Result<Ticket, LazyJiraError>, then: AfterRefresh) -> (r: Action)
        ensures
            final(self).view_mode == old(self).view_mode,
            final(self).current_ticket_key == old(self).current_ticket_key,
            match result {
                Ok(t) => final(self).detail_ticket == Some(t),
                Err(_) => final(self).detail_ticket == old(self).detail_ticket,
            },
            (then == AfterRefresh::ReloadList || (then == AfterRefresh::ReloadListIfFetched && result is Ok))
                ==> r == Action::LoadTickets && final(self).loading_state is Loading,
            !(then == AfterRefresh::ReloadList || (then == AfterRefresh::ReloadListIfFetched && result is Ok))
                ==> r == Action::Done && final(self).loading_state == old(self).loading_state,
    {
        let fetched = result.is_ok();
        match result {
            Ok(t) => {
                self.detail_ticket = Some(t);
            },
            Err(_) => {},
        }
        if then == AfterRefresh::ReloadList || (then == AfterRefresh::ReloadListIfFetched && fetched) {
            self.begin_load_tickets()
        } else {
            Action::Done
        }
    }
}

/// The address of an issue's page on the instance.
pub fn browse_url(instance: &str, key: &str) -> (r: String)
    ensures
        r@ == "https://"@ + instance@ + "/browse/"@ + key@,
{
    String::from_str("https://").concat(instance).concat("/browse/").concat(key)
}

impl App {
    /// Handles one input event: updates the state and names the request to
    /// perform next.
    pub fn handle_event(&mut self, event: AppEvent) -> (r: Action)
        ensures
            event == AppEvent::Quit ==> r == Action::Done && !final(self).running,
            event == AppEvent::Refresh ==> r == Action::LoadTickets && final(self).loading_state is Loading
                && final(self).view_mode == old(self).view_mode,
            event == AppEvent::MoveUp ==> r == Action::Done && match old(self).view_mode {
                Screen::List => final(self).ticket_list_state.focused_index == crate::lists::focus_up(
                    old(self).ticket_list_state.focused_index,
                    old(self).ticket_list_state.tickets@.len(),
                ),
                Screen::Transitions => final(self).transition_list_state.focused_index
                    == crate::lists::focus_up(
                    old(self).transition_list_state.focused_index,
                    old(self).transition_list_state.transitions@.len(),
                ),
                _ => *final(self) == *old(self),
            },
            event == AppEvent::MoveDown ==> r == Action::Done && match old(self).view_mode {
                Screen::List => final(self).ticket_list_state.focused_index == crate::lists::focus_down(
                    old(self).ticket_list_state.focused_index,
                    old(self).ticket_list_state.tickets@.len(),
                ),
                Screen::Transitions => final(self).transition_list_state.focused_index
                    == crate::lists::focus_down(
                    old(self).transition_list_state.focused_index,
                    old(self).transition_list_state.transitions@.len(),
                ),
                _ => *final(self) == *old(self),
            },
            event == AppEvent::EnterDetail && old(self).view_mode == Screen::List ==> match old(
                self,
            ).ticket_list_state.focused_ticket_spec() {
                Some(t) => {
                    &&& r == Action::FetchDetail { key: t.key }
                    &&& final(self).view_mode == Screen::Detail
                    &&& final(self).detail_loading
                    &&& final(self).detail_ticket is None
                    &&& final(self).detail_comments@.len() == 0
                    &&& final(self).current_ticket_key == Some(t.key)
                },
                None => r == Action::Done && *final(self) == *old(self),
            },
            event == AppEvent::EnterDetail && old(self).view_mode == Screen::Transitions ==> *final(self)
                == *old(self) && match (
                old(self).transition_list_state.focused_index,
                old(self).current_ticket_key,
            ) {
                (Some(i), Some(k)) => if i < old(self).transition_list_state.transitions@.len() {
                    r == Action::ExecuteTransition {
                        key: k,
                        transition_id: old(self).transition_list_state.transitions@[i as int].id,
                        origin: TransitionOrigin::Picked,
                    }
                } else {
                    r == Action::Done
                },
                _ => r == Action::Done,
            },
            event == AppEvent::ExitDetail ==> r == Action::Done && if old(self).view_mode == Screen::List {
                *final(self) == *old(self)
            } else {
                final(self).view_mode == Screen::List && detail_cleared(*final(self))
            },
            event == AppEvent::ShowTransitions ==> match (old(self).view_mode, old(self).current_ticket_key) {
                (Screen::Detail, Some(k)) => r == Action::FetchTransitions { key: k } && final(self).view_mode
                    == Screen::Transitions && final(self).transitions_loading,
                _ => r == Action::Done && *final(self) == *old(self),
            },
            event == AppEvent::AssignToMe ==> *final(self) == *old(self) && match (
                old(self).view_mode,
                old(self).current_ticket_key,
            ) {
                (Screen::Detail, Some(k)) => r == Action::RefreshIssue { key: k, then: AfterRefresh::Nothing },
                _ => r == Action::Done,
            },
            event == AppEvent::StartProgress ==> *final(self) == *old(self) && match (
                old(self).view_mode,
                old(self).current_ticket_key,
            ) {
                (Screen::Detail, Some(k)) => r == Action::FindTransition {
                    key: k,
                    goal: TransitionGoal::StartProgress,
                },
                _ => r == Action::Done,
            },
            event == AppEvent::Resolve ==> *final(self) == *old(self) && match (
                old(self).view_mode,
                old(self).current_ticket_key,
            ) {
                (Screen::Detail, Some(k)) => r == Action::FindTransition { key: k, goal: TransitionGoal::Resolve },
                _ => r == Action::Done,
            },
            event == AppEvent::OpenInBrowser ==> *final(self) == *old(self) && match old(self).view_mode {
                Screen::Detail => match old(self).current_ticket_key {
                    Some(k) => r matches Action::OpenUrl { url } && url@ == "https://"@ + old(
                        self,
                    ).instance_url@ + "/browse/"@ + k@,
                    None => r == Action::Done,
                },
                Screen::List => match old(self).ticket_list_state.focused_ticket_spec() {
                    Some(t) => r matches Action::OpenUrl { url } && url@ == "https://"@ + old(
                        self,
                    ).instance_url@ + "/browse/"@ + t.key@,
                    None => r == Action::Done,
                },
                _ => r == Action::Done,
            },
            event == AppEvent::ToggleSelection ==> r == Action::Done
                && final(self).ticket_list_state.focused_index == old(self).ticket_list_state.focused_index
                && final(self).ticket_list_state.selected_indices@ == match old(
                self,
            ).ticket_list_state.focused_index {
                Some(i) => if old(self).ticket_list_state.selected_indices@.contains(i) {
                    old(self).ticket_list_state.selected_indices@.remove(i)
                } else {
                    old(self).ticket_list_state.selected_indices@.insert(i)
                },
                None => old(self).ticket_list_state.selected_indices@,
            },
            (event == AppEvent::MoveLeft || event == AppEvent::MoveRight || event == AppEvent::Select
                || event == AppEvent::CreateTicket || event == AppEvent::AddComment || event
                == AppEvent::Unknown) ==> r == Action::Done && *final(self) == *old(self),
    {
        match event {
            AppEvent::Quit => {
                self.running = false;
                Action::Done
            },
            AppEvent::Refresh => self.begin_load_tickets(),
            AppEvent::MoveUp => {
                match self.view_mode {
                    Screen::List => self.ticket_list_state.move_up(),
                    Screen::Transitions => self.transition_list_state.move_up(),
                    _ => {},
                }
                Action::Done
            },
            AppEvent::MoveDown => {
                match self.view_mode {
                    Screen::List => self.ticket_list_state.move_down(),
                    Screen::Transitions => self.transition_list_state.move_down(),
                    _ => {},
                }
                Action::Done
            },
            AppEvent::EnterDetail => match self.view_mode {
                Screen::List => self.open_detail_view(),
                Screen::Transitions => {
                    match (self.transition_list_state.focused_transition(), &self.current_ticket_key) {
                        (Some(t), Some(k)) => Action::ExecuteTransition {
                            key: k.clone(),
                            transition_id: t.id.clone(),
                            origin: TransitionOrigin::Picked,
                        },
                        _ => Action::Done,
                    }
                },
                _ => Action::Done,
            },
            AppEvent::ToggleSelection => {
                self.ticket_list_state.toggle_selection();
                Action::Done
            },
            AppEvent::ExitDetail => {
                match self.view_mode {
                    Screen::List => {},
                    _ => {
                        self.view_mode = Screen::List;
                        self.detail_ticket = None;
                        self.detail_comments = Vec::new();
                        self.transition_list_state = TransitionListState::new();
                        self.current_ticket_key = None;
                    },
                }
                Action::Done
            },
            AppEvent::ShowTransitions => match (self.view_mode, &self.current_ticket_key) {
                (Screen::Detail, Some(k)) => {
                    let key = k.clone();
                    self.view_mode = Screen::Transitions;
                    self.transitions_loading = true;
                    Action::FetchTransitions { key }
                },
                _ => Action::Done,
            },
            AppEvent::AssignToMe => match (self.view_mode, &self.current_ticket_key) {
                (Screen::Detail, Some(k)) => Action::RefreshIssue { key: k.clone(), then: AfterRefresh::Nothing },
                _ => Action::Done,
            },
            AppEvent::StartProgress => match (self.view_mode, &self.current_ticket_key) {
                (Screen::Detail, Some(k)) => Action::FindTransition {
                    key: k.clone(),
                    goal: TransitionGoal::StartProgress,
                },
                _ => Action::Done,
            },
            AppEvent::Resolve => match (self.view_mode, &self.current_ticket_key) {
                (Screen::Detail, Some(k)) => Action::FindTransition {
                    key: k.clone(),
                    goal: TransitionGoal::Resolve,
                },
                _ => Action::Done,
            },
            AppEvent::OpenInBrowser => match self.view_mode {
                Screen::Detail => match &self.current_ticket_key {
                    Some(k) => Action::OpenUrl { url: browse_url(self.instance_url.as_str(), k.as_str()) },
                    None => Action::Done,
                },
                Screen::List => match self.ticket_list_state.focused_ticket() {
                    Some(t) => Action::OpenUrl { url: browse_url(self.instance_url.as_str(), t.key.as_str()) },
                    None => Action::Done,
                },
                _ => Action::Done,
            },
            _ => Action::Done,
        }
    }
}

impl TicketListState {
    /// The ticket under the focus.
    pub open spec fn focused_ticket_spec(&self) -> Option<Ticket> {
        match self.focused_index {
            Some(i) => if i < self.tickets@.len() { Some(self.tickets@[i as int]) } else { None },
            None => None,
        }
    }
}

} // verus!
