//! Focus and selection in the ticket list and the transition list.
use vstd::prelude::*;
use std::collections::HashSet;
use crate::models::{Ticket, Transition};

verus! {

broadcast use vstd::std_specs::hash::group_hash_axioms;

/// The focus after moving up in a list of `len` items.
pub open spec fn focus_up(focus: Option<usize>, len: nat) -> Option<usize> {
    match focus {
        Some(i) => if i > 0 { Some((i - 1) as usize) } else { Some(i) },
        None => if len > 0 { Some(0) } else { None },
    }
}

/// The focus after moving down in a list of `len` items; it stays on the last.
pub open spec fn focus_down(focus: Option<usize>, len: nat) -> Option<usize> {
    match focus {
        Some(i) => if i + 1 < len { Some((i + 1) as usize) } else { Some(i) },
        None => if len > 0 { Some(0) } else { None },
    }
}

/// The first item, if there is one.
pub open spec fn first_focus(len: nat) -> Option<usize> {
    if len > 0 { Some(0) } else { None }
}

fn move_focus_up(focus: Option<usize>, len: usize) -> (r: Option<usize>)
    ensures
        r == focus_up(focus, len as nat),
{
    match focus {
        Some(i) => if i > 0 { Some(i - 1) } else { Some(i) },
        None => if len > 0 { Some(0) } else { None },
    }
}

fn move_focus_down(focus: Option<usize>, len: usize) -> (r: Option<usize>)
    ensures
        r == focus_down(focus, len as nat),
{
    match focus {
        Some(i) => if i < len.saturating_sub(1) { Some(i + 1) } else { Some(i) },
        None => if len > 0 { Some(0) } else { None },
    }
}

/// The transitions on offer and which one has the focus.
#[derive(Debug, Clone)]
pub struct TransitionListState {
    pub transitions: Vec<Transition>,
    pub focused_index: Option<usize>,
}

impl TransitionListState {
    pub fn new() -> (r: Self)
        ensures
            r.transitions@.len() == 0,
            r.focused_index is None,
    {
        TransitionListState { transitions: Vec::new(), focused_index: None }
    }

    /// Replaces the transitions and focuses the first.
    pub fn set_transitions(&mut self, transitions: Vec<Transition>)
        ensures
            final(self).transitions == transitions,
            final(self).focused_index == first_focus(transitions@.len()),
    {
        self.transitions = transitions;
        self.focused_index = if self.transitions.len() == 0 { None } else { Some(0) };
    }

    pub fn move_up(&mut self)
        ensures
            final(self).transitions == old(self).transitions,
            final(self).focused_index == focus_up(old(self).focused_index, old(self).transitions@.len()),
    {
        self.focused_index = move_focus_up(self.focused_index, self.transitions.len());
    }

    pub fn move_down(&mut self)
        ensures
            final(self).transitions == old(self).transitions,
            final(self).focused_index == focus_down(old(self).focused_index, old(self).transitions@.len()),
    {
        self.focused_index = move_focus_down(self.focused_index, self.transitions.len());
    }

    /// The transition under the focus.
    pub fn focused_transition(&self) -> (r: Option<&Transition>)
        ensures
            match self.focused_index {
                Some(i) => if i < self.transitions@.len() {
                    r matches Some(t) && *t == self.transitions@[i as int]
                } else {
                    r is None
                },
                None => r is None,
            },
    {
        match self.focused_index {
            Some(i) => if i < self.transitions.len() { Some(&self.transitions[i]) } else { None },
            None => None,
        }
    }
}

/// The tickets on show, which are selected and which has the focus.
#[derive(Debug)]
pub struct TicketListState {
    pub tickets: Vec<Ticket>,
    pub selected_indices: HashSet<usize>,
    pub focused_index: Option<usize>,
    pub scroll_offset: usize,
}

impl TicketListState {
    pub fn new() -> (r: Self)
        ensures
            r.tickets@.len() == 0,
            r.selected_indices@.is_empty(),
            r.focused_index is None,
            r.scroll_offset == 0,
    {
        TicketListState {
            tickets: Vec::new(),
            selected_indices: HashSet::new(),
            focused_index: None,
            scroll_offset: 0,
        }
    }

    /// Replaces the tickets, clears the selection and focuses the first.
    pub fn set_tickets(&mut self, tickets: Vec<Ticket>)
        ensures
            final(self).tickets == tickets,
            final(self).selected_indices@.is_empty(),
            final(self).focused_index == first_focus(tickets@.len()),
            final(self).scroll_offset == 0,
    {
        self.tickets = tickets;
        self.selected_indices.clear();
        self.focused_index = if self.tickets.len() == 0 { None } else { Some(0) };
        self.scroll_offset = 0;
    }

    pub fn move_up(&mut self)
        ensures
            final(self).tickets == old(self).tickets,
            final(self).selected_indices@ == old(self).selected_indices@,
            final(self).focused_index == focus_up(old(self).focused_index, old(self).tickets@.len()),
    {
        self.focused_index = move_focus_up(self.focused_index, self.tickets.len());
    }

    pub fn move_down(&mut self)
        ensures
            final(self).tickets == old(self).tickets,
            final(self).selected_indices@ == old(self).selected_indices@,
            final(self).focused_index == focus_down(old(self).focused_index, old(self).tickets@.len()),
    {
        self.focused_index = move_focus_down(self.focused_index, self.tickets.len());
    }

    /// Selects the focused ticket, or deselects it if it was selected.
    pub fn toggle_selection(&mut self)
        ensures
            final(self).tickets == old(self).tickets,
            final(self).focused_index == old(self).focused_index,
            final(self).selected_indices@ == match old(self).focused_index {
                Some(i) => if old(self).selected_indices@.contains(i) {
                    old(self).selected_indices@.remove(i)
                } else {
                    old(self).selected_indices@.insert(i)
                },
                None => old(self).selected_indices@,
            },
    {
        if let Some(idx) = self.focused_index {
            if self.selected_indices.contains(&idx) {
                self.selected_indices.remove(&idx);
            } else {
                self.selected_indices.insert(idx);
            }
        }
    }

    /// The ticket under the focus.
    pub fn focused_ticket(&self) -> (r: Option<&Ticket>)
        ensures
            match self.focused_index {
                Some(i) => if i < self.tickets@.len() {
                    r matches Some(t) && *t == self.tickets@[i as int]
                } else {
                    r is None
                },
                None => r is None,
            },
    {
        match self.focused_index {
            Some(i) => if i < self.tickets.len() { Some(&self.tickets[i]) } else { None },
            None => None,
        }
    }
}

} // verus!
