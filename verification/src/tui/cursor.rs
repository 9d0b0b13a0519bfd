//! The list widget's state, kept by `ratatui`: which row is selected.

use vstd::prelude::*;
use ratatui::widgets::ListState;

verus! {

/// `ratatui::widgets::ListState`: the selected row of a list and its scroll
/// offset.
#[verifier::external_type_specification]
#[verifier::external_body]
pub struct ExListState(ListState);

/// The row that a list state has selected.
pub uninterp spec fn selected_row(state: ListState) -> Option<usize>;

/// The row below `row`, the first where none is selected; the last possible
/// row has none below it.
pub open spec fn row_below(row: Option<usize>) -> usize {
    match row {
        Some(i) => if i == usize::MAX {
            i
        } else {
            (i + 1) as usize
        },
        None => 0,
    }
}

/// The row above `row`, the last possible where none is selected; the first
/// row has none above it.
pub open spec fn row_above(row: Option<usize>) -> usize {
    match row {
        Some(i) => if i == 0 {
            i
        } else {
            (i - 1) as usize
        },
        None => usize::MAX,
    }
}

/// Trusted: the derived `Default` of `ListState` selects no row.
pub assume_specification[ <ListState as Default>::default ]() -> (state: ListState)
    ensures
        selected_row(state) is None,
;

/// Trusted: `ListState::selected` returns the selected row.
pub assume_specification[ ListState::selected ](state: &ListState) -> (row: Option<usize>)
    ensures
        row == selected_row(*state),
;

/// Trusted: `ListState::select` selects `index`.
pub assume_specification[ ListState::select ](state: &mut ListState, index: Option<usize>)
    ensures
        selected_row(*final(state)) == index,
;

/// Trusted: `ListState::select_next` selects the row after the selected one
/// by a saturating addition of one, or row 0 where none was selected.
pub assume_specification[ ListState::select_next ](state: &mut ListState)
    ensures
        selected_row(*final(state)) == Some(row_below(selected_row(*old(state)))),
;

/// Trusted: `ListState::select_previous` selects the row before the selected
/// one by a saturating subtraction of one, or `usize::MAX` where none was
/// selected.
pub assume_specification[ ListState::select_previous ](state: &mut ListState)
    ensures
        selected_row(*final(state)) == Some(row_above(selected_row(*old(state)))),
;

/// Trusted: `ListState::select_first` selects row 0.
pub assume_specification[ ListState::select_first ](state: &mut ListState)
    ensures
        selected_row(*final(state)) == Some(0usize),
;

/// Trusted: `ListState::select_last` selects `usize::MAX`, which the widget
/// brings back to the last row when it next renders.
pub assume_specification[ ListState::select_last ](state: &mut ListState)
    ensures
        selected_row(*final(state)) == Some(usize::MAX),
;

} // verus!
