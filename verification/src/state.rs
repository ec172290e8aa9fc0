//! The selection in a list of known length.

use vstd::prelude::*;

verus! {

/// Which row of a list is selected, and how many rows the list has.
pub struct State {
    max: usize,
    selected: Option<usize>,
}

/// The mathematical value of a [`State`].
pub struct StateView {
    /// The number of rows.
    pub max: usize,
    /// The selected row, if any.
    pub selected: Option<usize>,
}

impl View for State {
    type V = StateView;

    closed spec fn view(&self) -> StateView {
        StateView { max: self.max, selected: self.selected }
    }
}

/// The row that counts as selected: row 0 where none is.
pub open spec fn row_of(selected: Option<usize>) -> usize {
    match selected {
        Some(row) => row,
        None => 0,
    }
}

/// A state after a move down by one row: the selection moves unless it
/// stands on the last row or beyond it, or the list has no rows.
pub open spec fn moved_down(state: StateView) -> StateView {
    if row_of(state.selected) + 1 < state.max {
        StateView { selected: Some((row_of(state.selected) + 1) as usize), ..state }
    } else {
        state
    }
}

/// A state after a move up by one row: the selection moves unless it stands
/// on row 0.
pub open spec fn moved_up(state: StateView) -> StateView {
    if row_of(state.selected) > 0 {
        StateView { selected: Some((row_of(state.selected) - 1) as usize), ..state }
    } else {
        state
    }
}

impl State {
    /// A list without rows, with row 0 selected.
    pub fn new() -> (state: State)
        ensures
            state@ == (StateView { max: 0, selected: Some(0usize) }),
    {
        State { max: 0, selected: Some(0) }
    }

    /// Selects row 0.
    pub fn reset(&mut self)
        ensures
            final(self)@ == (StateView { selected: Some(0usize), ..old(self)@ }),
    {
        self.selected = Some(0);
    }

    /// Sets the number of rows. The selection stays as it is.
    pub fn set_max(&mut self, max: usize)
        ensures
            final(self)@ == (StateView { max, ..old(self)@ }),
    {
        self.max = max;
    }

    /// The selection as it stands.
    pub fn selected(&self) -> (selected: Option<usize>)
        ensures
            selected == self@.selected,
    {
        self.selected
    }

    /// The selected row; row 0 where none is selected.
    pub fn get_value(&self) -> (row: usize)
        ensures
            row == row_of(self@.selected),
    {
        match self.selected {
            Some(row) => row,
            None => 0,
        }
    }

    /// Moves the selection down by one row, unless it stands on the last
    /// row or beyond it, or the list has no rows.
    pub fn increment(&mut self)
        ensures
            final(self)@ == moved_down(old(self)@),
    {
        let value = self.get_value();
        if self.max == 0 {
            return ;
        }
        if value < self.max - 1 {
            self.selected = Some(value + 1);
        }
    }

    /// Moves the selection up by one row, unless it stands on row 0.
    pub fn decrement(&mut self)
        ensures
            final(self)@ == moved_up(old(self)@),
    {
        let value = self.get_value();
        if value == 0 {
            return ;
        }
        self.selected = Some(value - 1);
    }
}

} // verus!
