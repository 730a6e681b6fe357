//! Column selection, as the table widget's state computes it.

use vstd::prelude::*;
use ratatui::widgets::TableState;

verus! {

/// The column that is selected after moving one column to the right from
/// `column`: the first column when none was selected, else the next one,
/// stopping at the largest index.
pub open spec fn column_after(column: Option<usize>) -> usize {
    match column {
        Some(c) => if c < usize::MAX { (c + 1) as usize } else { c },
        None => 0,
    }
}

/// The column that is selected after moving one column to the left from
/// `column`: the largest index when none was selected (the renderer brings it
/// back to the last column), else the one before, stopping at the first.
pub open spec fn column_before(column: Option<usize>) -> usize {
    match column {
        Some(c) => if c > 0 { (c - 1) as usize } else { c },
        None => usize::MAX,
    }
}

/// Moves the column selection of ratatui's table state one column to the
/// right: builds a state with `TableState::new().with_selected_column(column)`,
/// calls `TableState::select_next_column` on it and reads
/// `TableState::selected_column` back. Trusted: the state then holds `Some` of
/// column 0 where `column` was `None`, and of the saturating successor of the
/// column otherwise.
#[verifier::external_body]
pub(crate) fn select_next_column(column: Option<usize>) -> (next: Option<usize>)
    ensures
        next == Some(column_after(column)),
{
    let mut state = TableState::new().with_selected_column(column);
    state.select_next_column();
    state.selected_column()
}

/// Moves the column selection of ratatui's table state one column to the
/// left: builds a state with `TableState::new().with_selected_column(column)`,
/// calls `TableState::select_previous_column` on it and reads
/// `TableState::selected_column` back. Trusted: the state then holds `Some` of
/// `usize::MAX` where `column` was `None`, and of the saturating predecessor
/// of the column otherwise.
#[verifier::external_body]
pub(crate) fn select_previous_column(column: Option<usize>) -> (previous: Option<usize>)
    ensures
        previous == Some(column_before(column)),
{
    let mut state = TableState::new().with_selected_column(column);
    state.select_previous_column();
    state.selected_column()
}

} // verus!
