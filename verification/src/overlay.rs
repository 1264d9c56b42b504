//! The search line: a query that narrows the rows of a list while it is
//! typed, and that stays in force once it is set.

use vstd::prelude::*;
use vstd::string::*;
use crate::app::{App, AppModel};
use crate::search::{data_rows, filter_rows, filtered_rows, fuzzy_matches, matcher};
use crate::text::{clone_rows, drop_last_char, push_char};

verus! {

impl AppModel {
    /// The rows are narrowed to the query. With the empty query all rows
    /// are shown and the cursor stays. With any other query the rows that
    /// match are shown, and a cursor that no longer points at a data row
    /// goes to the first data row, or to the separator when there is no
    /// data row, with the list at its top.
    pub open spec fn apply_search_filter(self) -> AppModel {
        if self.search_input.len() == 0 {
            AppModel { items: self.unfiltered_items, ..self }
        } else {
            let shown = filtered_rows(self.unfiltered_items, self.search_input);
            if self.selected_index < 2 || self.selected_index >= shown.len() {
                AppModel {
                    items: shown,
                    selected_index: if shown.len() >= 3 {
                        2
                    } else if shown.len() >= 1 {
                        (shown.len() - 1) as usize
                    } else {
                        0
                    },
                    list_offset: 0,
                    ..self
                }
            } else {
                AppModel { items: shown, ..self }
            }
        }
    }

    /// The search line opens with an empty query; the rows shown are kept
    /// as the rows to search in.
    pub open spec fn enter_search_mode(self) -> AppModel {
        AppModel {
            search_mode: true,
            search_input: Seq::empty(),
            unfiltered_items: self.items,
            command_mode: false,
            ..self
        }
    }

    /// The query grows by one character and the rows follow.
    pub open spec fn update_search(self, c: char) -> AppModel {
        (AppModel { search_input: self.search_input.push(c), ..self }).apply_search_filter()
    }

    /// The query loses its last character and the rows follow; the search
    /// line closes when the query was empty already.
    pub open spec fn clear_search_input(self) -> AppModel {
        if self.search_input.len() > 0 {
            (AppModel {
                search_input: self.search_input.drop_last(),
                ..self
            }).apply_search_filter()
        } else {
            AppModel { search_mode: false, ..self }
        }
    }

    /// The search line closes and the query stays in force.
    pub open spec fn commit_search(self) -> AppModel {
        AppModel { search_mode: false, has_committed_filter: true, ..self }
    }

    /// The search line closes, the query is dropped and all rows are shown
    /// again.
    pub open spec fn cancel_search(self) -> AppModel {
        AppModel {
            search_mode: false,
            search_input: Seq::empty(),
            has_committed_filter: false,
            items: if self.unfiltered_items.len() > 0 {
                self.unfiltered_items
            } else {
                self.items
            },
            ..self
        }
    }

    /// Whether a query narrows the rows: while it is typed, and once it is
    /// set.
    pub open spec fn has_filter(self) -> bool {
        self.search_mode || self.has_committed_filter
    }
}

impl App {
    /// Narrows the rows to the query.
    pub fn apply_search_filter(&mut self)
        ensures
            final(self)@ == old(self)@.apply_search_filter(),
    {
        self.items = filter_rows(&self.unfiltered_items, self.search_input.as_str());
        if self.search_input.as_str().is_empty() {
            return ;
        }
        if self.selected_index < 2 || self.selected_index >= self.items.len() {
            let len = self.items.len();
            self.selected_index = if len >= 3 {
                2
            } else if len >= 1 {
                len - 1
            } else {
                0
            };
            self.list_offset = 0;
        }
    }

    /// Opens the search line.
    pub fn enter_search_mode(&mut self)
        ensures
            final(self)@ == old(self)@.enter_search_mode(),
    {
        self.search_mode = true;
        self.search_input = String::new();
        self.unfiltered_items = clone_rows(&self.items);
        self.command_mode = false;
    }

    /// Adds a character to the query.
    pub fn update_search(&mut self, c: char)
        ensures
            final(self)@ == old(self)@.update_search(c),
    {
        push_char(&mut self.search_input, c);
        self.apply_search_filter();
    }

    /// Takes the last character from the query, or closes the search line
    /// when the query is empty.
    pub fn clear_search_input(&mut self)
        ensures
            final(self)@ == old(self)@.clear_search_input(),
    {
        if !self.search_input.as_str().is_empty() {
            self.search_input = drop_last_char(self.search_input.as_str());
            self.apply_search_filter();
        } else {
            self.search_mode = false;
        }
    }

    /// Closes the search line and keeps the query in force.
    pub fn commit_search(&mut self)
        ensures
            final(self)@ == old(self)@.commit_search(),
    {
        self.search_mode = false;
        self.has_committed_filter = true;
    }

    /// Closes the search line and shows all rows again.
    pub fn cancel_search(&mut self)
        ensures
            final(self)@ == old(self)@.cancel_search(),
    {
        self.search_mode = false;
        self.search_input = String::new();
        self.has_committed_filter = false;
        if self.unfiltered_items.len() > 0 {
            self.items = clone_rows(&self.unfiltered_items);
        }
    }
}

/// A query never touches the header row and the separator row, and every
/// data row it shows matches it.
pub proof fn lemma_filter_keeps_head(rows: Seq<Seq<char>>, query: Seq<char>)
    requires
        rows.len() >= 2,
        query.len() > 0,
    ensures
        filtered_rows(rows, query).len() >= 2,
        filtered_rows(rows, query).len() <= rows.len(),
        filtered_rows(rows, query)[0] == rows[0],
        filtered_rows(rows, query)[1] == rows[1],
        forall|i: int|
            2 <= i < filtered_rows(rows, query).len() ==> fuzzy_matches(
                #[trigger] filtered_rows(rows, query)[i],
                query,
            ),
{
    let data = data_rows(rows);
    let keep = matcher(query);
    data.lemma_filter_len(keep);
    let shown = filtered_rows(rows, query);
    assert forall|i: int| 2 <= i < shown.len() implies fuzzy_matches(#[trigger] shown[i], query) by {
        data.lemma_filter_pred(keep, i - 2);
    }
}

} // verus!
