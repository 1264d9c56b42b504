//! Moving between screens: entering a screen, going back, and keeping the
//! cursor of each list across both.

use vstd::prelude::*;
use vstd::string::*;
use crate::app::{App, AppModel, AppStateModel};
use crate::fetch::{request_model, FetchRequest};
use crate::rows::{
    context_lines, context_rows, help_lines, help_text, loading_pipeline_lines,
    loading_pipeline_rows, loading_run_lines, loading_run_rows,
};
use crate::views::{RunView, RunViewModel, ViewModel, ViewType};

verus! {

impl AppModel {
    /// The cursor of the screen in view is remembered, unless the screen is
    /// the start screen or a detail screen.
    pub open spec fn save_view_state(self) -> AppModel {
        if self.view.keeps_cursor() {
            AppModel {
                view_state_cache: self.view_state_cache.insert(
                    self.view,
                    (self.selected_index, self.list_offset),
                ),
                ..self
            }
        } else {
            self
        }
    }

    /// The cursor goes where it was when the screen in view was left, if
    /// that was on a data row; otherwise to the first data row, with the
    /// list at its top.
    pub open spec fn restore_view_state(self) -> AppModel {
        if self.view_state_cache.contains_key(self.view) && self.view_state_cache[self.view].0
            >= 2 {
            AppModel {
                selected_index: self.view_state_cache[self.view].0,
                list_offset: self.view_state_cache[self.view].1,
                ..self
            }
        } else {
            AppModel { selected_index: 2, list_offset: 0, ..self }
        }
    }

    /// The search is over and leaves nothing behind.
    pub open spec fn clear_search(self) -> AppModel {
        AppModel {
            search_mode: false,
            search_input: Seq::empty(),
            has_committed_filter: false,
            unfiltered_items: Seq::empty(),
            ..self
        }
    }

    /// The way back after a move to `target`. A move that resets leaves
    /// only the start screen to go back to, and nothing when the start
    /// screen is the target. Any other move adds the screen in view.
    pub open spec fn update_view_history(self, target: ViewModel, reset_history: bool) -> AppModel {
        AppModel {
            view_history: if reset_history {
                if target is Default {
                    Seq::empty()
                } else {
                    seq![ViewModel::Default]
                }
            } else {
                self.view_history.push(self.view)
            },
            ..self
        }
    }

    /// The detail screen that belongs to the screen in view: a new one,
    /// with nothing fetched yet, for a run; none for any other screen.
    pub open spec fn fresh_run_view(self) -> Option<RunViewModel> {
        match self.view {
            ViewModel::Run(id) => Some(
                RunViewModel { run_id: id, details: None, scroll_offset: 0, horizontal_scroll: 0 },
            ),
            _ => None,
        }
    }

    /// The screen that has come into view is set up. The detail screen of
    /// the screen that was left is dropped, and a run gets a new one. The
    /// rows are the help text, the list of contexts, or the rows that stand
    /// for a list being fetched; the rows stay for a run. The cursor of a
    /// list is restored.
    pub open spec fn restore_state(self) -> AppModel {
        let fresh = AppModel { run_view: self.fresh_run_view(), ..self };
        match self.view {
            ViewModel::Default => AppModel {
                items: help_lines(),
                selected_index: 0,
                list_offset: 0,
                ..fresh
            },
            ViewModel::Runs | ViewModel::PipelineRuns(_) => (AppModel {
                items: loading_run_lines(),
                ..fresh
            }).restore_view_state(),
            ViewModel::Contexts => (AppModel {
                items: context_lines(self.config),
                ..fresh
            }).restore_view_state(),
            ViewModel::Pipelines => (AppModel {
                items: loading_pipeline_lines(),
                ..fresh
            }).restore_view_state(),
            ViewModel::Run(_) => fresh,
        }
    }

    /// The dashboard after the screen `target` was entered. Entering the
    /// screen in view changes nothing. Otherwise the cursor of the screen in
    /// view is remembered, the search ends, the way back is brought up to
    /// date, and the new screen is set up. Entering the list of all runs also
    /// ends the narrowing to one pipeline.
    pub open spec fn enter_view(self, target: ViewModel, reset_history: bool) -> AppModel {
        if target == self.view {
            self
        } else {
            let widened = if target is Runs {
                AppModel {
                    state: AppStateModel { selected_pipeline: None, ..self.state },
                    ..self
                }
            } else {
                self
            };
            let left = widened.save_view_state().clear_search().update_view_history(
                target,
                reset_history,
            );
            (AppModel { view: target, ..left }).restore_state()
        }
    }

    /// The dashboard after the screen that was waiting to be entered has
    /// been entered; nothing changes when none was waiting.
    pub open spec fn enter_pending_view(self) -> AppModel {
        match self.next_view {
            Some((target, reset_history)) => (AppModel { next_view: None, ..self }).enter_view(
                target,
                reset_history,
            ),
            None => self,
        }
    }

    /// Whether going back leads anywhere: not from the start screen with no
    /// way back.
    pub open spec fn can_navigate_back(self) -> bool {
        self.view_history.len() > 0 || !(self.view is Default)
    }

    /// The dashboard after going back. The cursor of the screen in view is
    /// remembered. The nearest screen of the way back comes into view and is
    /// set up; with no way back, the start screen does. On the start screen
    /// with no way back nothing changes.
    pub open spec fn navigate_back(self) -> AppModel {
        let saved = self.save_view_state();
        if self.view_history.len() > 0 {
            (AppModel {
                view: self.view_history.last(),
                view_history: self.view_history.drop_last(),
                ..saved
            }).restore_state()
        } else if !(self.view is Default) {
            (AppModel { view: ViewModel::Default, ..saved }).restore_state()
        } else {
            saved
        }
    }
}

impl App {
    /// Remembers the cursor of the screen in view, unless the screen is the
    /// start screen or a detail screen.
    pub fn save_view_state(&mut self)
        ensures
            final(self)@ == old(self)@.save_view_state(),
    {
        match &self.view {
            ViewType::Default => {},
            ViewType::Run(_) => {},
            _ => {
                self.view_state_cache.insert(
                    self.view.clone(),
                    (self.selected_index, self.list_offset),
                );
            },
        }
    }

    /// Puts the cursor where it was when the screen in view was left, or on
    /// the first data row.
    pub fn restore_view_state(&mut self)
        ensures
            final(self)@ == old(self)@.restore_view_state(),
    {
        match self.view_state_cache.get(&self.view) {
            Some((selected_index, list_offset)) => {
                if selected_index >= 2 {
                    self.selected_index = selected_index;
                    self.list_offset = list_offset;
                } else {
                    self.selected_index = 2;
                    self.list_offset = 0;
                }
            },
            None => {
                self.selected_index = 2;
                self.list_offset = 0;
            },
        }
    }

    /// Brings the way back up to date for a move to `target`.
    pub fn update_view_history(&mut self, target: &ViewType, reset_history: bool)
        ensures
            final(self)@ == old(self)@.update_view_history(target@, reset_history),
    {
        if reset_history {
            self.view_history = Vec::new();
            match target {
                ViewType::Default => {
                    assert(self.view_history.deep_view() =~= Seq::empty());
                },
                _ => {
                    self.view_history.push(ViewType::Default);
                    assert(self.view_history.deep_view() =~= seq![ViewModel::Default]);
                },
            }
        } else {
            let ghost before = self.view_history.deep_view();
            self.view_history.push(self.view.clone());
            assert(self.view_history.deep_view() =~= before.push(self.view@));
        }
    }

    /// Sets up the screen that has come into view.
    pub fn restore_state(&mut self)
        ensures
            final(self)@ == old(self)@.restore_state(),
    {
        self.run_view = match &self.view {
            ViewType::Run(id) => Some(RunView::new(id.clone())),
            _ => None,
        };
        match &self.view {
            ViewType::Default => {
                self.items = help_text();
                self.selected_index = 0;
                self.list_offset = 0;
            },
            ViewType::Runs | ViewType::PipelineRuns(_) => {
                self.items = loading_run_rows();
                self.restore_view_state();
            },
            ViewType::Contexts => {
                self.items = context_rows(&self.config);
                self.restore_view_state();
            },
            ViewType::Pipelines => {
                self.items = loading_pipeline_rows();
                self.restore_view_state();
            },
            ViewType::Run(_) => {},
        }
    }

    /// Enters the screen `view_type` and says what the screen needs fetched.
    ///
    /// Entering the screen in view changes nothing and asks for nothing.
    pub fn enter_view(&mut self, view_type: ViewType, reset_history: bool) -> (r: Option<
        FetchRequest,
    >)
        ensures
            final(self)@ == old(self)@.enter_view(view_type@, reset_history),
            view_type@ == old(self)@.view ==> final(self)@ == old(self)@ && r is None,
            view_type@ != old(self)@.view ==> request_model(r) == final(self)@.load_request(),
            old(self)@.history_is_sound() ==> final(self)@.history_is_sound(),
            old(self)@.detail_is_sound() ==> final(self)@.detail_is_sound(),
    {
        proof {
            if self@.history_is_sound() {
                lemma_history_stays_sound(self@, view_type@, reset_history);
            }
            if self@.detail_is_sound() {
                lemma_detail_stays_sound(self@, view_type@, reset_history);
            }
        }
        if self.view == view_type {
            return None;
        }
        if let ViewType::Runs = view_type {
            self.state.selected_pipeline = None;
        }
        self.save_view_state();
        self.search_mode = false;
        self.search_input = String::new();
        self.has_committed_filter = false;
        self.unfiltered_items = Vec::new();
        assert(self.unfiltered_items.deep_view() =~= Seq::empty());
        self.update_view_history(&view_type, reset_history);
        self.view = view_type;
        self.restore_state();
        self.load_request()
    }

    /// Enters the screen that is waiting to be entered, if there is one,
    /// and says what the screen needs fetched.
    pub fn enter_pending_view(&mut self) -> (r: Option<FetchRequest>)
        ensures
            final(self)@ == old(self)@.enter_pending_view(),
            request_model(r) == match old(self)@.next_view {
                Some((target, _)) => if target == old(self)@.view {
                    None
                } else {
                    final(self)@.load_request()
                },
                None => None,
            },
    {
        match self.next_view.take() {
            Some((target, reset_history)) => self.enter_view(target, reset_history),
            None => None,
        }
    }

    /// Goes back one screen; says whether that led anywhere, and what the
    /// screen that came into view needs fetched.
    pub fn navigate_back(&mut self) -> (r: (bool, Option<FetchRequest>))
        ensures
            final(self)@ == old(self)@.navigate_back(),
            r.0 == old(self)@.can_navigate_back(),
            !r.0 ==> final(self)@ == old(self)@,
            request_model(r.1) == if r.0 {
                final(self)@.load_request()
            } else {
                None
            },
            old(self)@.history_is_sound() ==> final(self)@.history_is_sound(),
            old(self)@.detail_is_sound() ==> final(self)@.detail_is_sound(),
    {
        proof {
            if self@.history_is_sound() {
                lemma_history_stays_sound(self@, self@.view, false);
            }
            if self@.detail_is_sound() {
                lemma_detail_stays_sound(self@, self@.view, false);
            }
        }
        self.save_view_state();
        let ghost history = self.view_history.deep_view();
        match self.view_history.pop() {
            Some(previous) => {
                assert(self.view_history.deep_view() =~= history.drop_last());
                assert(previous@ == history.last());
                self.view = previous;
                self.restore_state();
                (true, self.load_request())
            },
            None => {
                assert(self.view_history.deep_view() =~= history);
                match &self.view {
                    ViewType::Default => (false, None),
                    _ => {
                        self.view = ViewType::Default;
                        self.restore_state();
                        (true, self.load_request())
                    },
                }
            },
        }
    }
}

/// Entering the screen in view changes nothing: not the way back, not the
/// remembered cursors, not the rows.
pub proof fn lemma_enter_current_view(app: AppModel, reset_history: bool)
    ensures
        app.enter_view(app.view, reset_history) == app,
{
}

/// A cursor that was on a data row of a list is found again after leaving
/// the list for another screen and going back.
pub proof fn lemma_cursor_round_trip_back(app: AppModel, away: ViewModel)
    requires
        app.view.keeps_cursor(),
        away != app.view,
        app.selected_index >= 2,
    ensures
        app.enter_view(away, false).navigate_back().view == app.view,
        app.enter_view(away, false).navigate_back().selected_index == app.selected_index,
        app.enter_view(away, false).navigate_back().list_offset == app.list_offset,
{
}

/// A cursor that was on a data row of a list is found again after leaving
/// the list for another screen and entering it anew, whatever either move
/// does to the way back.
pub proof fn lemma_cursor_round_trip_enter(
    app: AppModel,
    away: ViewModel,
    reset_away: bool,
    reset_again: bool,
)
    requires
        app.view.keeps_cursor(),
        away != app.view,
        app.selected_index >= 2,
    ensures
        app.enter_view(away, reset_away).enter_view(app.view, reset_again).view == app.view,
        app.enter_view(away, reset_away).enter_view(app.view, reset_again).selected_index
            == app.selected_index,
        app.enter_view(away, reset_away).enter_view(app.view, reset_again).list_offset
            == app.list_offset,
{
}

/// A cursor that was saved for a list is found again whenever the list
/// comes back into view, as long as nothing was saved for the list since.
pub proof fn lemma_saved_cursor_is_restored(app: AppModel, list: ViewModel)
    requires
        list.keeps_cursor(),
        app.view_state_cache.contains_key(list),
        app.view_state_cache[list].0 >= 2,
        app.view != list,
    ensures
        app.enter_view(list, false).selected_index == app.view_state_cache[list].0,
        app.enter_view(list, false).list_offset == app.view_state_cache[list].1,
        app.enter_view(list, true).selected_index == app.view_state_cache[list].0,
        app.enter_view(list, true).list_offset == app.view_state_cache[list].1,
        app.view_history.len() > 0 && app.view_history.last() == list ==> {
            &&& app.navigate_back().selected_index == app.view_state_cache[list].0
            &&& app.navigate_back().list_offset == app.view_state_cache[list].1
        },
{
}

/// Entering a screen with a reset and going back at once leads to the
/// start screen, with its help text and no way back. When the screen
/// entered is the start screen itself, going back leads nowhere and changes
/// nothing.
pub proof fn lemma_reset_then_back(app: AppModel, target: ViewModel)
    requires
        target != app.view,
    ensures
        !(target is Default) ==> {
            &&& app.enter_view(target, true).can_navigate_back()
            &&& app.enter_view(target, true).navigate_back().view == ViewModel::Default
            &&& app.enter_view(target, true).navigate_back().view_history == Seq::<
                ViewModel,
            >::empty()
            &&& app.enter_view(target, true).navigate_back().items == help_lines()
        },
        target is Default ==> {
            &&& !app.enter_view(target, true).can_navigate_back()
            &&& app.enter_view(target, true).navigate_back() == app.enter_view(target, true)
        },
{
    let entered = app.enter_view(target, true);
    if !(target is Default) {
        assert(entered.view_history =~= seq![ViewModel::Default]);
        assert(entered.view_history.drop_last() =~= Seq::<ViewModel>::empty());
    } else {
        assert(entered.view_history =~= Seq::<ViewModel>::empty());
    }
}

/// Moving between screens keeps the detail screen in step with the screen
/// in view: a run that comes into view gets a new detail screen, and the
/// detail screen is dropped when the run is left.
pub proof fn lemma_detail_stays_sound(app: AppModel, target: ViewModel, reset_history: bool)
    requires
        app.detail_is_sound(),
    ensures
        app.enter_view(target, reset_history).detail_is_sound(),
        app.navigate_back().detail_is_sound(),
        target != app.view && !(target is Run) ==> app.enter_view(target, reset_history).run_view
            is None,
        target != app.view && target is Run ==> app.enter_view(target, reset_history).run_view
            == Some(
            RunViewModel {
                run_id: target->Run_0,
                details: None,
                scroll_offset: 0,
                horizontal_scroll: 0,
            },
        ),
{
}

/// Moving between screens keeps the way back sound: it never holds a
/// screen twice in a row and never ends in the screen in view.
pub proof fn lemma_history_stays_sound(app: AppModel, target: ViewModel, reset_history: bool)
    requires
        app.history_is_sound(),
    ensures
        app.enter_view(target, reset_history).history_is_sound(),
        app.navigate_back().history_is_sound(),
{
    let entered = app.enter_view(target, reset_history);
    if target != app.view {
        if reset_history {
            if target is Default {
                assert(entered.view_history =~= Seq::<ViewModel>::empty());
            } else {
                assert(entered.view_history =~= seq![ViewModel::Default]);
            }
        } else {
            assert(entered.view_history =~= app.view_history.push(app.view));
            let history = entered.view_history;
            assert forall|i: int| 0 <= i < history.len() - 1 implies #[trigger] history[i]
                != history[i + 1] by {
                if i < app.view_history.len() - 1 {
                    assert(app.view_history[i] != app.view_history[i + 1]);
                }
            }
        }
    }
    let back = app.navigate_back();
    if app.view_history.len() > 0 {
        let rest = app.view_history.drop_last();
        assert(back.view_history =~= rest);
        assert forall|i: int| 0 <= i < rest.len() - 1 implies #[trigger] rest[i] != rest[i
            + 1] by {
            assert(app.view_history[i] != app.view_history[i + 1]);
        }
        if rest.len() > 0 {
            assert(app.view_history[rest.len() - 1] != app.view_history[rest.len() - 1 + 1]);
        }
    } else {
        assert(back.view_history =~= app.view_history);
    }
}

} // verus!
