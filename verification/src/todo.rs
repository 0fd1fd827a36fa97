//! A to-do list on screen: items that are open or done, and the selection
//! that moves over them.

use crate::list_state::{index_after, index_before, offset_of, selected_of};
use ratatui::widgets::ListState;
use vstd::prelude::*;

verus! {

/// Whether an item is still to do.
#[derive(Debug, Clone, Copy, PartialEq, Eq, Structural)]
pub enum Status {
    /// Still to do.
    Todo,
    /// Done.
    Completed,
}

impl Status {
    /// The other status.
    pub open spec fn toggled(self) -> Status {
        match self {
            Status::Todo => Status::Completed,
            Status::Completed => Status::Todo,
        }
    }
}

/// One entry of the list.
#[derive(Debug)]
pub struct TodoItem {
    /// What is to do.
    pub todo: String,
    /// Whether it has been done.
    pub status: Status,
}

/// The entries and the selection over them.
pub struct TodoList {
    /// The entries, in the order in which they are shown.
    pub items: Vec<TodoItem>,
    /// The selection, as the screen keeps it.
    pub state: ListState,
}

impl TodoList {
    /// The statuses of the entries, in order.
    pub open spec fn statuses(&self) -> Seq<Status> {
        Seq::new(self.items@.len(), |i: int| self.items@[i].status)
    }

    /// The texts of the entries, in order.
    pub open spec fn todos(&self) -> Seq<Seq<char>> {
        Seq::new(self.items@.len(), |i: int| self.items@[i].todo@)
    }

    /// The selected index, if any.
    pub open spec fn selection(&self) -> Option<usize> {
        selected_of(self.state)
    }

    /// A list of `items` with nothing selected.
    pub fn new(items: Vec<TodoItem>) -> (list: TodoList)
        ensures
            list.items == items,
            list.selection() is None,
            offset_of(list.state) == 0,
    {
        TodoList { items, state: ListState::default() }
    }

    /// Clears the selection.
    pub fn select_none(&mut self)
        ensures
            final(self).selection() is None,
            offset_of(final(self).state) == 0,
            final(self).items == old(self).items,
    {
        self.state.select(None);
    }

    /// Moves the selection one entry down, or to the first entry if nothing
    /// was selected. The index does not wrap.
    pub fn select_next(&mut self)
        ensures
            final(self).selection() == Some(index_after(old(self).selection())),
            offset_of(final(self).state) == offset_of(old(self).state),
            final(self).items == old(self).items,
    {
        self.state.select_next();
    }

    /// Moves the selection one entry up, stopping at the first entry. With
    /// nothing selected, the selection goes to the end of the list.
    pub fn select_previous(&mut self)
        ensures
            final(self).selection() == Some(index_before(old(self).selection())),
            offset_of(final(self).state) == offset_of(old(self).state),
            final(self).items == old(self).items,
    {
        self.state.select_previous();
    }

    /// Selects the first entry.
    pub fn select_first(&mut self)
        ensures
            final(self).selection() == Some(0usize),
            offset_of(final(self).state) == offset_of(old(self).state),
            final(self).items == old(self).items,
    {
        self.state.select_first();
    }

    /// Selects the end of the list: the largest index there is, which
    /// drawing brings back to the last entry.
    pub fn select_last(&mut self)
        ensures
            final(self).selection() == Some(usize::MAX),
            offset_of(final(self).state) == offset_of(old(self).state),
            final(self).items == old(self).items,
    {
        self.state.select_last();
    }

    /// Flips the status of the selected entry between to do and done. With
    /// nothing selected, nothing changes. The selection must point at an
    /// entry.
    pub fn toggle_status(&mut self)
        requires
            old(self).selection() matches Some(i) ==> i < old(self).items@.len(),
        ensures
            final(self).state == old(self).state,
            final(self).todos() == old(self).todos(),
            final(self).items@.len() == old(self).items@.len(),
            match old(self).selection() {
                Some(i) => final(self).statuses() == old(self).statuses().update(
                    i as int,
                    old(self).statuses()[i as int].toggled(),
                ),
                None => final(self).statuses() == old(self).statuses(),
            },
    {
        match self.state.selected() {
            Some(i) => {
                let flipped: Status = match self.items[i].status {
                    Status::Completed => Status::Todo,
                    Status::Todo => Status::Completed,
                };
                self.items[i].status = flipped;
                assert(self.todos() =~= old(self).todos());
                assert(self.statuses() =~= old(self).statuses().update(
                    i as int,
                    old(self).statuses()[i as int].toggled(),
                ));
            },
            None => {},
        }
    }
}

/// Flipping a status twice gives it back.
pub proof fn lemma_toggle_twice(status: Status)
    ensures
        status.toggled().toggled() == status,
{
}

} // verus!
