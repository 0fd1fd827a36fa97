//! What this crate takes for granted about `ratatui::widgets::ListState`,
//! the selection state of a list on screen.
//!
//! None of the statements in this file is proved here. Each one restates
//! what the source of the method shows.

use ratatui::widgets::ListState;
use vstd::prelude::*;

verus! {

/// `ratatui::widgets::ListState`, carried as an opaque value: what it holds
/// is spoken of through `selected_of` and `offset_of` only.
#[verifier::external_type_specification]
#[verifier::external_body]
pub struct ExListState(ListState);

/// The index that a list state has selected, if any.
pub uninterp spec fn selected_of(state: ListState) -> Option<usize>;

/// The index of the first item that a list state displays.
pub uninterp spec fn offset_of(state: ListState) -> usize;

/// The index one further down, stopping at the largest index there is.
pub open spec fn index_after(selected: Option<usize>) -> usize {
    match selected {
        Some(i) => if i == usize::MAX {
            i
        } else {
            (i + 1) as usize
        },
        None => 0,
    }
}

/// The index one further up, stopping at zero; with nothing selected, the
/// largest index there is.
pub open spec fn index_before(selected: Option<usize>) -> usize {
    match selected {
        Some(i) => if i == 0 {
            i
        } else {
            (i - 1) as usize
        },
        None => usize::MAX,
    }
}

/// `ListState::default`: nothing is selected and display starts at the
/// first item.
pub assume_specification[ <ListState as core::default::Default>::default ]() -> (state: ListState)
    ensures
        selected_of(state) is None,
        offset_of(state) == 0,
;

/// `ListState::selected`: reads the selected index.
pub assume_specification[ ListState::selected ](state: &ListState) -> (index: Option<usize>)
    ensures
        index == selected_of(*state),
;

/// `ListState::select`: stores the index; clearing the selection also moves
/// the display back to the first item.
pub assume_specification[ ListState::select ](state: &mut ListState, index: Option<usize>)
    ensures
        selected_of(*final(state)) == index,
        offset_of(*final(state)) == if index is None {
            0
        } else {
            offset_of(*old(state))
        },
;

/// `ListState::select_next`: selects the index after the selected one
/// without wrapping at the largest index, or the first if none was
/// selected. It does not look at the list, so the index may lie past its
/// end until the list is drawn.
pub assume_specification[ ListState::select_next ](state: &mut ListState)
    ensures
        selected_of(*final(state)) == Some(index_after(selected_of(*old(state)))),
        offset_of(*final(state)) == offset_of(*old(state)),
;

/// `ListState::select_previous`: selects the index before the selected one
/// without wrapping at zero, or the largest index there is if none was
/// selected.
pub assume_specification[ ListState::select_previous ](state: &mut ListState)
    ensures
        selected_of(*final(state)) == Some(index_before(selected_of(*old(state)))),
        offset_of(*final(state)) == offset_of(*old(state)),
;

/// `ListState::select_first`: selects index zero.
pub assume_specification[ ListState::select_first ](state: &mut ListState)
    ensures
        selected_of(*final(state)) == Some(0usize),
        offset_of(*final(state)) == offset_of(*old(state)),
;

/// `ListState::select_last`: selects the largest index there is, which
/// drawing the list brings back to its last item.
pub assume_specification[ ListState::select_last ](state: &mut ListState)
    ensures
        selected_of(*final(state)) == Some(usize::MAX),
        offset_of(*final(state)) == offset_of(*old(state)),
;

} // verus!
