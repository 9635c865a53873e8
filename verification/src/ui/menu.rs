//! A menu of which one item is selected.

use vstd::prelude::*;

verus! {

/// A list of items with a cursor. The cursor moves up and down and stops at
/// both ends.
#[derive(Debug, Clone)]
pub struct SelectionMenu {
    pub items: Vec<String>,
    pub selected: usize,
}

/// The position of the cursor after a step up.
pub open spec fn after_up(selected: int) -> int {
    if selected > 0 {
        selected - 1
    } else {
        selected
    }
}

/// The position of the cursor after a step down in a menu of `len` items.
pub open spec fn after_down(selected: int, len: int) -> int {
    if selected + 1 < len {
        selected + 1
    } else {
        selected
    }
}

impl SelectionMenu {
    /// A menu of `items` with the cursor on the first.
    pub fn new(items: Vec<String>) -> (m: SelectionMenu)
        ensures
            m.items == items,
            m.selected == 0,
    {
        SelectionMenu { items, selected: 0 }
    }

    /// Moves the cursor one item up, unless it is on the first.
    pub fn move_up(&mut self)
        ensures
            final(self).items == old(self).items,
            final(self).selected == after_up(old(self).selected as int),
    {
        if self.selected > 0 {
            self.selected -= 1;
        }
    }

    /// Moves the cursor one item down, unless it is on the last.
    pub fn move_down(&mut self)
        ensures
            final(self).items == old(self).items,
            final(self).selected == after_down(
                old(self).selected as int,
                old(self).items@.len() as int,
            ),
    {
        if self.selected < self.items.len() && self.items.len() - self.selected > 1 {
            self.selected += 1;
        }
    }

    /// The position of the cursor.
    pub fn selected_index(&self) -> (r: usize)
        ensures
            r == self.selected,
    {
        self.selected
    }
}

/// A cursor that is on an item stays on an item, whichever way it moves.
pub proof fn law_cursor_stays_in_range(selected: int, len: int)
    requires
        0 <= selected < len,
    ensures
        0 <= after_up(selected) < len,
        0 <= after_down(selected, len) < len,
{
}

} // verus!
