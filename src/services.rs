//! Filtering of ticket lists, and the checks made before creating a ticket.
use vstd::prelude::*;
use crate::client::CreateIssueData;
use crate::error::LazyJiraError;
use crate::models::{StatusCategory, Ticket};
use crate::text::{has_substring, is_blank, is_blank_str, str_eq, contains_str};
use crate::ui::{lower_of, lowercase};

verus! {

/// The tickets satisfying `keep`, in order.
pub open spec fn kept(ts: Seq<Ticket>, keep: spec_fn(Ticket) -> bool) -> Seq<Ticket>
    decreases ts.len(),
{
    if ts.len() == 0 {
        Seq::empty()
    } else {
        let rest = kept(ts.drop_last(), keep);
        if keep(ts.last()) {
            rest.push(ts.last())
        } else {
            rest
        }
    }
}

pub open spec fn in_category(c: StatusCategory) -> spec_fn(Ticket) -> bool {
    |t: Ticket| t.status.category == c
}

pub open spec fn assigned_to(account_id: Seq<char>) -> spec_fn(Ticket) -> bool {
    |t: Ticket| t.assignee matches Some(u) && u.account_id@ == account_id
}

/// Summary or key contains the query, all compared in lowercase.
pub open spec fn mentions(query: Seq<char>) -> spec_fn(Ticket) -> bool {
    |t: Ticket|
        has_substring(lower_of(t.summary@), lower_of(query)) || has_substring(
            lower_of(t.key@),
            lower_of(query),
        )
}

/// Whether lowercased summary or key contains the lowercased query.
pub fn matches_folded(folded_summary: &str, folded_key: &str, folded_query: &str) -> (r: bool)
    ensures
        r == (has_substring(folded_summary@, folded_query@) || has_substring(folded_key@, folded_query@)),
{
    contains_str(folded_summary, folded_query) || contains_str(folded_key, folded_query)
}

pub struct FilterService;

impl FilterService {
    /// The tickets whose status is in `category`.
    pub fn filter_by_status_category(tickets: &[Ticket], category: StatusCategory) -> (r: Vec<Ticket>)
        ensures
            r@ == kept(tickets@, in_category(category)),
    {
        let mut out: Vec<Ticket> = Vec::new();
        let mut i: usize = 0;
        while i < tickets.len()
            invariant
                0 <= i <= tickets@.len(),
                out@ == kept(tickets@.subrange(0, i as int), in_category(category)),
            decreases tickets@.len() - i,
        {
            assert(tickets@.subrange(0, i + 1).drop_last() =~= tickets@.subrange(0, i as int));
            if tickets[i].status.category == category {
                out.push(tickets[i].duplicate());
            }
            i = i + 1;
        }
        assert(tickets@.subrange(0, tickets@.len() as int) =~= tickets@);
        out
    }

    /// The tickets assigned to the account.
    pub fn filter_by_assignee(tickets: &[Ticket], account_id: &str) -> (r: Vec<Ticket>)
        ensures
            r@ == kept(tickets@, assigned_to(account_id@)),
    {
        let mut out: Vec<Ticket> = Vec::new();
        let mut i: usize = 0;
        while i < tickets.len()
            invariant
                0 <= i <= tickets@.len(),
                out@ == kept(tickets@.subrange(0, i as int), assigned_to(account_id@)),
            decreases tickets@.len() - i,
        {
            assert(tickets@.subrange(0, i + 1).drop_last() =~= tickets@.subrange(0, i as int));
            let keep = match &tickets[i].assignee {
                Some(u) => str_eq(u.account_id.as_str(), account_id),
                None => false,
            };
            if keep {
                out.push(tickets[i].duplicate());
            }
            i = i + 1;
        }
        assert(tickets@.subrange(0, tickets@.len() as int) =~= tickets@);
        out
    }

    /// The tickets whose summary or key contains the query, ignoring case.
    pub fn filter_by_text(tickets: &[Ticket], query: &str) -> (r: Vec<Ticket>)
        ensures
            r@ == kept(tickets@, mentions(query@)),
    {
        let folded_query = lowercase(query);
        let mut out: Vec<Ticket> = Vec::new();
        let mut i: usize = 0;
        while i < tickets.len()
            invariant
                0 <= i <= tickets@.len(),
                folded_query@ == lower_of(query@),
                out@ == kept(tickets@.subrange(0, i as int), mentions(query@)),
            decreases tickets@.len() - i,
        {
            assert(tickets@.subrange(0, i + 1).drop_last() =~= tickets@.subrange(0, i as int));
            let summary = lowercase(tickets[i].summary.as_str());
            let key = lowercase(tickets[i].key.as_str());
            if matches_folded(summary.as_str(), key.as_str(), folded_query.as_str()) {
                out.push(tickets[i].duplicate());
            }
            i = i + 1;
        }
        assert(tickets@.subrange(0, tickets@.len() as int) =~= tickets@);
        out
    }
}

/// Why a new ticket may not be created, if it may not.
pub open spec fn creation_problem(d: CreateIssueData) -> Option<Seq<char>> {
    if is_blank(d.summary@) {
        Some("Summary cannot be empty"@)
    } else if is_blank(d.project_key@) {
        Some("Project key cannot be empty"@)
    } else {
        None
    }
}

/// A new ticket needs a summary and a project key that are not blank; a
/// failure is a validation error.
pub fn check_new_ticket(data: &CreateIssueData) -> (r: Result<(), LazyJiraError>)
    ensures
        r is Ok <==> creation_problem(*data) is None,
        r matches Err(e) ==> e is Validation && creation_problem(*data) == Some(e.detail_spec()),
{
    if is_blank_str(data.summary.as_str()) {
        return Err(LazyJiraError::Validation(String::from_str("Summary cannot be empty")));
    }
    if is_blank_str(data.project_key.as_str()) {
        return Err(LazyJiraError::Validation(String::from_str("Project key cannot be empty")));
    }
    Ok(())
}

} // verus!
