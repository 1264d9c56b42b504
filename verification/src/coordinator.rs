//! The two loops around the dashboard, as far as they decide anything.
//!
//! The input loop takes a snapshot of the dashboard, lets go of it, works
//! out what the key means, and takes hold of the dashboard again to carry
//! the action out. The poll loop asks the dashboard what to fetch, lets go
//! of it, fetches, and takes hold of it again to merge the outcome. Neither
//! holds the dashboard while it waits.

use vstd::prelude::*;
use crate::app::{App, AppModel};
use crate::fetch::{FetchKind, FetchKindModel, FetchRequest, FetchRequestModel};
use crate::input::{handle_key, key_action, Key, KeyAction};
use crate::poll::{pipelines_outcome, run_outcome, runs_outcome, Outcome};
use crate::rows::{can_show, can_show_all};
use crate::utils::is_truncatable;
use crate::views::{DomainError, Pipeline, PipelineModel, Run, RunModel, ViewType};

verus! {

/// The seconds between two polls.
pub const POLL_INTERVAL_SECONDS: u64 = 3;

/// The milliseconds that the input loop waits for a key before it draws
/// again.
pub const UI_REFRESH_MILLISECONDS: u64 = 100;

/// What the input loop needs to know of the dashboard to tell what a key
/// means.
#[derive(Debug)]
pub struct InputSnapshot {
    pub view: ViewType,
    pub command_mode: bool,
    pub search_mode: bool,
    pub selected_index: usize,
}

impl InputSnapshot {
    /// What the key `key` means in the state of the snapshot.
    pub fn action(&self, key: Key) -> (r: KeyAction)
        ensures
            r@ == key_action(
                key,
                self.view@,
                self.command_mode,
                self.search_mode,
                self.selected_index,
            ),
    {
        handle_key(key, &self.view, self.command_mode, self.search_mode, self.selected_index)
    }
}

/// What a fetch brought.
#[derive(Debug)]
pub enum FetchOutcome {
    Runs(Result<Vec<Run>, DomainError>),
    Run(Result<Run, DomainError>),
    Pipelines(Result<Vec<Pipeline>, DomainError>),
}

/// What a fetch brought, as a mathematical value.
pub enum OutcomeModel {
    Runs(Outcome<Seq<RunModel>>),
    Run(Outcome<RunModel>),
    Pipelines(Outcome<Seq<PipelineModel>>),
}

impl View for FetchOutcome {
    type V = OutcomeModel;

    open spec fn view(&self) -> OutcomeModel {
        match self {
            FetchOutcome::Runs(outcome) => OutcomeModel::Runs(runs_outcome(*outcome)),
            FetchOutcome::Run(outcome) => OutcomeModel::Run(run_outcome(*outcome)),
            FetchOutcome::Pipelines(outcome) => OutcomeModel::Pipelines(
                pipelines_outcome(*outcome),
            ),
        }
    }
}

impl OutcomeModel {
    /// Whether the rows of what was fetched can be written: the names and
    /// locations of the pipelines can be shortened to their columns.
    pub open spec fn can_show(self) -> bool {
        match self {
            OutcomeModel::Pipelines(Ok(pipelines)) => can_show_all(pipelines),
            _ => true,
        }
    }
}

impl FetchOutcome {
    /// Decides whether the rows of what was fetched can be written.
    pub fn can_show(&self) -> (r: bool)
        ensures
            r == self@.can_show(),
    {
        match self {
            FetchOutcome::Pipelines(Ok(pipelines)) => {
                let mut i: usize = 0;
                while i < pipelines.len()
                    invariant
                        i <= pipelines.len(),
                        self@ == OutcomeModel::Pipelines(Ok(pipelines.deep_view())),
                        forall|k: int|
                            0 <= k < i && !(#[trigger] pipelines.deep_view()[k]).is_asset_job
                                ==> can_show(pipelines.deep_view()[k]),
                    decreases pipelines.len() - i,
                {
                    let p = &pipelines[i];
                    assert(pipelines.deep_view()[i as int] == p@);
                    if !p.is_asset_job && !(is_truncatable(p.name.as_str(), 50) && is_truncatable(
                        p.repository_location.as_str(),
                        33,
                    )) {
                        assert(!can_show(pipelines.deep_view()[i as int]));
                        return false;
                    }
                    i += 1;
                }
                true
            },
            _ => true,
        }
    }
}

impl AppModel {
    /// The dashboard after the poll came back: the outcome goes to the
    /// screen that the request was for. An outcome of another kind than the
    /// request asked for changes nothing.
    pub open spec fn merge_poll(self, request: FetchRequestModel, outcome: OutcomeModel, now: i64)
        -> AppModel {
        match (request.kind, outcome) {
            (FetchKindModel::Runs { .. }, OutcomeModel::Runs(runs)) => self.merge_runs(
                request,
                runs,
                now,
            ),
            (FetchKindModel::Run { .. }, OutcomeModel::Run(run)) => self.merge_run(request, run),
            (FetchKindModel::Pipelines, OutcomeModel::Pipelines(pipelines)) => self.merge_pipelines(
                request,
                pipelines,
            ),
            _ => self,
        }
    }

    /// The dashboard after what a screen asked for on coming into view has
    /// arrived.
    pub open spec fn finish_load(
        self,
        request: FetchRequestModel,
        outcome: OutcomeModel,
        now: i64,
    ) -> AppModel {
        match (request.kind, outcome) {
            (FetchKindModel::Runs { .. }, OutcomeModel::Runs(runs)) => self.load_runs(
                request,
                runs,
                now,
            ),
            (FetchKindModel::Pipelines, OutcomeModel::Pipelines(pipelines)) => self.load_pipelines(
                request,
                pipelines,
            ),
            _ => self,
        }
    }
}

impl App {
    /// What the input loop needs to know to tell what a key means.
    pub fn snapshot(&self) -> (r: InputSnapshot)
        ensures
            r.view@ == self@.view,
            r.command_mode == self@.command_mode,
            r.search_mode == self@.search_mode,
            r.selected_index == self@.selected_index,
    {
        InputSnapshot {
            view: self.view.clone(),
            command_mode: self.command_mode,
            search_mode: self.search_mode,
            selected_index: self.selected_index,
        }
    }

    /// Merges what the poll brought, at the time `now`.
    pub fn merge_poll(&mut self, request: &FetchRequest, outcome: FetchOutcome, now: i64)
        requires
            outcome@.can_show(),
        ensures
            final(self)@ == old(self)@.merge_poll(request@, outcome@, now),
            request@.view != old(self)@.view ==> final(self)@ == old(self)@,
    {
        match (&request.kind, outcome) {
            (FetchKind::Runs { .. }, FetchOutcome::Runs(runs)) => {
                self.merge_runs(request, runs, now);
            },
            (FetchKind::Run { .. }, FetchOutcome::Run(run)) => {
                self.merge_run(request, run);
            },
            (FetchKind::Pipelines, FetchOutcome::Pipelines(pipelines)) => {
                self.merge_pipelines(request, pipelines);
            },
            _ => {},
        }
    }

    /// Merges what the poll brought, at the time `now`, if its rows can be
    /// written, and says whether they can. An outcome whose rows cannot be
    /// written changes nothing.
    pub fn try_merge_poll(&mut self, request: &FetchRequest, outcome: FetchOutcome, now: i64) -> (r:
        bool)
        ensures
            r == outcome@.can_show(),
            r ==> final(self)@ == old(self)@.merge_poll(request@, outcome@, now),
            !r ==> final(self)@ == old(self)@,
    {
        if !outcome.can_show() {
            return false;
        }
        self.merge_poll(request, outcome, now);
        true
    }

    /// Takes in what a screen asked for on coming into view, at the time
    /// `now`, if its rows can be written, and says whether they can. An
    /// outcome whose rows cannot be written changes nothing.
    pub fn try_finish_load(&mut self, request: &FetchRequest, outcome: FetchOutcome, now: i64)
        -> (r: bool)
        ensures
            r == outcome@.can_show(),
            r ==> final(self)@ == old(self)@.finish_load(request@, outcome@, now),
            !r ==> final(self)@ == old(self)@,
    {
        if !outcome.can_show() {
            return false;
        }
        self.finish_load(request, outcome, now);
        true
    }

    /// Takes in what a screen asked for on coming into view, at the time
    /// `now`.
    pub fn finish_load(&mut self, request: &FetchRequest, outcome: FetchOutcome, now: i64)
        requires
            outcome@.can_show(),
        ensures
            final(self)@ == old(self)@.finish_load(request@, outcome@, now),
            request@.view != old(self)@.view ==> final(self)@ == old(self)@,
    {
        match (&request.kind, outcome) {
            (FetchKind::Runs { .. }, FetchOutcome::Runs(runs)) => {
                self.load_runs(request, runs, now);
            },
            (FetchKind::Pipelines, FetchOutcome::Pipelines(pipelines)) => {
                self.load_pipelines(request, pipelines);
            },
            _ => {},
        }
    }
}

/// A poll asks for what the screen in view shows: nothing on the start
/// screen and on the list of contexts, runs on a list of runs, the run on a
/// detail screen, the pipelines on the list of pipelines.
pub proof fn lemma_poll_follows_the_screen(app: AppModel)
    ensures
        app.view is Default || app.view is Contexts <==> app.poll_request() is None,
        app.shows_runs() <==> app.poll_request() is Some
            && app.poll_request()->0.kind is Runs,
        app.view is Run <==> app.poll_request() is Some && app.poll_request()->0.kind is Run,
        app.view is Pipelines <==> app.poll_request() is Some
            && app.poll_request()->0.kind is Pipelines,
        app.poll_request() is Some ==> app.poll_request()->0.view == app.view,
        app.poll_request() is Some ==> app.is_current(app.poll_request()->0),
{
}

/// Pipelines that the poll brings while a query narrows the list of
/// pipelines replace the rows to search in, and the rows shown are those
/// that the query picks from the rows of the new pipelines: the query is
/// applied again, not dropped.
pub proof fn lemma_polled_pipelines_keep_the_filter(
    app: AppModel,
    pipelines: Seq<PipelineModel>,
    now: i64,
)
    requires
        app.view is Pipelines,
        app.has_filter(),
    ensures
        app.poll_request() is Some,
        ({
            let merged = app.merge_poll(
                app.poll_request()->0,
                OutcomeModel::Pipelines(Ok(pipelines)),
                now,
            );
            &&& merged.state.pipelines == pipelines
            &&& merged.unfiltered_items == crate::rows::pipeline_lines(pipelines)
            &&& merged.items == crate::search::filtered_rows(
                crate::rows::pipeline_lines(pipelines),
                app.search_input,
            )
            &&& merged.search_input == app.search_input
            &&& merged.has_filter()
        }),
{
}

/// The race between a poll and a move: runs that were asked for on a list
/// of runs and arrive once another screen is in view leave the rows and
/// the runs held as they are.
pub proof fn lemma_late_runs_are_dropped(
    asked: AppModel,
    now_in_view: AppModel,
    outcome: Outcome<Seq<RunModel>>,
    now: i64,
)
    requires
        asked.poll_request() is Some,
        now_in_view.view != asked.view,
    ensures
        now_in_view.merge_poll(asked.poll_request()->0, OutcomeModel::Runs(outcome), now)
            == now_in_view,
{
}

} // verus!
