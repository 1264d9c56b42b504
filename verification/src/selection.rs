//! Moving the cursor in a list, and scrolling the detail screen.

use vstd::prelude::*;
use crate::app::{App, AppModel};
use crate::views::{RunViewModel, ViewModel, ViewType};

verus! {

impl AppModel {
    /// The row below the selected one, or the last row when the selected
    /// row is at or below it.
    pub open spec fn row_below(self) -> int {
        if self.selected_index + 1 < self.items.len() - 1 {
            self.selected_index + 1
        } else {
            self.items.len() - 1
        }
    }

    /// The sums that a move down forms fit in a machine word, and the last
    /// row shown is a row.
    pub open spec fn can_move_down(self, viewport_height: usize) -> bool {
        self.items.len() > 2 ==> {
            &&& self.selected_index < usize::MAX
            &&& self.row_below() != self.selected_index ==> {
                &&& 1 <= self.list_offset + viewport_height <= usize::MAX
                &&& self.row_below() >= self.list_offset + viewport_height - 1
                    ==> self.list_offset < usize::MAX
            }
        }
    }

    /// The dashboard after a move of the cursor to the next row. A list
    /// without data rows is left alone. The list scrolls by one row when
    /// the cursor reaches the last row shown.
    pub open spec fn next_item(self, viewport_height: usize) -> AppModel {
        if self.items.len() <= 2 || self.row_below() == self.selected_index {
            self
        } else {
            AppModel {
                selected_index: self.row_below() as usize,
                list_offset: if self.row_below() >= self.list_offset + viewport_height - 1 {
                    (self.list_offset + 1) as usize
                } else {
                    self.list_offset
                },
                ..self
            }
        }
    }

    /// The row above the selected one, but never a row above the first
    /// data row.
    pub open spec fn row_above(self) -> usize {
        if self.selected_index >= 3 {
            (self.selected_index - 1) as usize
        } else {
            2
        }
    }

    /// The dashboard after a move of the cursor to the previous row. A list
    /// without data rows is left alone. The list scrolls by one row when
    /// the cursor leaves the rows shown at the top.
    pub open spec fn previous_item(self) -> AppModel {
        if self.items.len() <= 2 || self.row_above() == self.selected_index {
            self
        } else {
            AppModel {
                selected_index: self.row_above(),
                list_offset: if self.row_above() < self.list_offset {
                    (self.list_offset - 1) as usize
                } else {
                    self.list_offset
                },
                ..self
            }
        }
    }

    /// The dashboard after the detail screen was scrolled by `down` rows
    /// and `right` columns, each of them one, none or one back. Nothing
    /// scrolls below zero or beyond the largest number, and nothing scrolls
    /// unless a detail screen is in view.
    pub open spec fn scroll(self, down: int, right: int) -> AppModel {
        match (self.view, self.run_view) {
            (ViewModel::Run(_), Some(run_view)) => AppModel {
                run_view: Some(
                    RunViewModel {
                        scroll_offset: clip(run_view.scroll_offset + down),
                        horizontal_scroll: clip(run_view.horizontal_scroll + right),
                        ..run_view
                    },
                ),
                ..self
            },
            _ => self,
        }
    }
}

/// `n`, held between zero and the largest machine word.
pub open spec fn clip(n: int) -> usize {
    if n < 0 {
        0
    } else if n > usize::MAX {
        usize::MAX
    } else {
        n as usize
    }
}

impl App {
    /// Decides whether a move down can form its sums in machine words.
    pub fn can_move_down(&self, viewport_height: usize) -> (r: bool)
        ensures
            r == self@.can_move_down(viewport_height),
    {
        if self.items.len() <= 2 {
            return true;
        }
        if self.selected_index == usize::MAX {
            return false;
        }
        let max_index = self.items.len() - 1;
        let next_index = if self.selected_index + 1 < max_index {
            self.selected_index + 1
        } else {
            max_index
        };
        if next_index == self.selected_index {
            return true;
        }
        match self.list_offset.checked_add(viewport_height) {
            None => false,
            Some(end) => end >= 1 && (next_index < end - 1 || self.list_offset < usize::MAX),
        }
    }

    /// Moves the cursor to the next row, in a list of which
    /// `viewport_height` rows are shown.
    pub fn next_item(&mut self, viewport_height: usize)
        requires
            old(self)@.can_move_down(viewport_height),
        ensures
            final(self)@ == old(self)@.next_item(viewport_height),
    {
        if self.items.len() <= 2 {
            return ;
        }
        let max_index = self.items.len() - 1;
        let next_index = if self.selected_index + 1 < max_index {
            self.selected_index + 1
        } else {
            max_index
        };
        if next_index != self.selected_index {
            let last_visible = self.list_offset + viewport_height - 1;
            if next_index >= last_visible {
                self.list_offset += 1;
            }
            self.selected_index = next_index;
        }
    }

    /// Moves the cursor to the previous row.
    pub fn previous_item(&mut self, _viewport_height: usize)
        ensures
            final(self)@ == old(self)@.previous_item(),
    {
        if self.items.len() <= 2 {
            return ;
        }
        let prev_index = if self.selected_index >= 3 {
            self.selected_index - 1
        } else {
            2
        };
        if prev_index != self.selected_index {
            self.selected_index = prev_index;
            if self.selected_index < self.list_offset {
                self.list_offset = self.list_offset.saturating_sub(1);
            }
        }
    }

    /// Scrolls the detail screen down by one row.
    pub fn scroll_down(&mut self)
        ensures
            final(self)@ == old(self)@.scroll(1, 0),
    {
        if let ViewType::Run(_) = self.view {
            if let Some(run_view) = &mut self.run_view {
                run_view.scroll_offset = run_view.scroll_offset.saturating_add(1);
            }
        }
    }

    /// Scrolls the detail screen up by one row.
    pub fn scroll_up(&mut self)
        ensures
            final(self)@ == old(self)@.scroll(-1, 0),
    {
        if let ViewType::Run(_) = self.view {
            if let Some(run_view) = &mut self.run_view {
                run_view.scroll_offset = run_view.scroll_offset.saturating_sub(1);
            }
        }
    }

    /// Scrolls the detail screen left by one column.
    pub fn scroll_left(&mut self)
        ensures
            final(self)@ == old(self)@.scroll(0, -1),
    {
        if let ViewType::Run(_) = self.view {
            if let Some(run_view) = &mut self.run_view {
                run_view.horizontal_scroll = run_view.horizontal_scroll.saturating_sub(1);
            }
        }
    }

    /// Scrolls the detail screen right by one column.
    pub fn scroll_right(&mut self)
        ensures
            final(self)@ == old(self)@.scroll(0, 1),
    {
        if let ViewType::Run(_) = self.view {
            if let Some(run_view) = &mut self.run_view {
                run_view.horizontal_scroll = run_view.horizontal_scroll.saturating_add(1);
            }
        }
    }
}

/// While the cursor is on a data row of a list, moving it keeps it on a
/// data row of the list.
pub proof fn lemma_cursor_stays_on_data_rows(app: AppModel, viewport_height: usize)
    requires
        2 <= app.selected_index < app.items.len() <= usize::MAX,
    ensures
        2 <= app.next_item(viewport_height).selected_index < app.items.len(),
        2 <= app.previous_item().selected_index < app.items.len(),
{
}

} // verus!
