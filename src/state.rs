//! A plain application state: a ticket list with focus and selection.
use vstd::prelude::*;
use std::collections::HashSet;
use crate::models::Ticket;

verus! {

broadcast use vstd::std_specs::hash::group_hash_axioms;

/// Commands of a command palette.
#[derive(Debug, Clone, Copy, PartialEq, Eq, Structural)]
pub enum Command {
    Quit,
    Refresh,
}

#[derive(Debug, Clone, Copy, PartialEq, Eq, Structural)]
pub enum ViewMode {
    List,
    Detail,
    Command,
}

pub struct AppState {
    pub tickets: Vec<Ticket>,
    pub selected_indices: HashSet<usize>,
    pub focused_index: Option<usize>,
    pub filter_query: Option<String>,
    pub view_mode: ViewMode,
}

/// The tickets at the selected indices among the first `n`, in index order.
pub open spec fn selected_prefix(tickets: Seq<Ticket>, selected: Set<usize>, n: nat) -> Seq<Ticket>
    decreases n,
{
    if n == 0 {
        Seq::empty()
    } else {
        let rest = selected_prefix(tickets, selected, (n - 1) as nat);
        if selected.contains((n - 1) as usize) {
            rest.push(tickets[n - 1])
        } else {
            rest
        }
    }
}

impl AppState {
    pub fn new() -> (r: Self)
        ensures
            r.tickets@.len() == 0,
            r.selected_indices@.is_empty(),
            r.focused_index is None,
            r.filter_query is None,
            r.view_mode == ViewMode::List,
    {
        AppState {
            tickets: Vec::new(),
            selected_indices: HashSet::new(),
            focused_index: None,
            filter_query: None,
            view_mode: ViewMode::List,
        }
    }

    /// The ticket under the focus.
    pub fn focused_ticket(&self) -> (r: Option<&Ticket>)
        ensures
            match self.focused_index {
                Some(i) => if i < self.tickets@.len() {
                    r matches Some(t) && *t == self.tickets@[i as int]
                } else {
                    r is None
                },
                None => r is None,
            },
    {
        match self.focused_index {
            Some(i) => if i < self.tickets.len() { Some(&self.tickets[i]) } else { None },
            None => None,
        }
    }

    /// The selected tickets, in list order; selected indices past the end are
    /// ignored.
    pub fn selected_tickets(&self) -> (r: Vec<&Ticket>)
        ensures
            r@.map_values(|t: &Ticket| *t) == selected_prefix(
                self.tickets@,
                self.selected_indices@,
                self.tickets@.len(),
            ),
    {
        let mut out: Vec<&Ticket> = Vec::new();
        let mut i: usize = 0;
        while i < self.tickets.len()
            invariant
                0 <= i <= self.tickets@.len(),
                out@.map_values(|t: &Ticket| *t) == selected_prefix(self.tickets@, self.selected_indices@, i as nat),
            decreases self.tickets@.len() - i,
        {
            let ghost before = out@.map_values(|t: &Ticket| *t);
            if self.selected_indices.contains(&i) {
                out.push(&self.tickets[i]);
                assert(out@.map_values(|t: &Ticket| *t) =~= before.push(self.tickets@[i as int]));
            }
            i = i + 1;
        }
        out
    }

    /// Selects the focused ticket, or deselects it if it was selected.
    pub fn toggle_selection(&mut self)
        ensures
            final(self).focused_index == old(self).focused_index,
            final(self).tickets == old(self).tickets,
            final(self).selected_indices@ == match old(self).focused_index {
                Some(i) => if old(self).selected_indices@.contains(i) {
                    old(self).selected_indices@.remove(i)
                } else {
                    old(self).selected_indices@.insert(i)
                },
                None => old(self).selected_indices@,
            },
    {
        if let Some(idx) = self.focused_index {
            if self.selected_indices.contains(&idx) {
                self.selected_indices.remove(&idx);
            } else {
                self.selected_indices.insert(idx);
            }
        }
    }
}

impl Default for AppState {
    fn default() -> (r: Self)
        ensures
            r.tickets@.len() == 0,
            r.selected_indices@.is_empty(),
            r.focused_index is None,
            r.filter_query is None,
            r.view_mode == ViewMode::List,
    {
        Self::new()
    }
}

} // verus!
