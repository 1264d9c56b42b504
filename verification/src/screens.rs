//! The screens, one type each, with what each does to the dashboard: set
//! itself up, say what it needs fetched, and take in what was fetched.

use vstd::prelude::*;
use vstd::string::*;
use crate::app::{App, AppModel};
use crate::fetch::{FetchKind, FetchRequest, FetchRequestModel};
use crate::poll::{pipelines_outcome, run_outcome, runs_outcome};
use crate::rows::{
    can_show_all, help_lines, help_text, pipeline_lines, pipeline_rows, run_lines, run_rows,
};
use crate::views::{DomainError, Pipeline, Run, RunView, RunViewModel};

verus! {

/// The start screen.
#[derive(Debug, Clone, Copy)]
pub struct DefaultView;

impl DefaultView {
    /// Shows the help text.
    pub fn populate_help_text(app: &mut App)
        ensures
            final(app)@ == (AppModel { items: help_lines(), ..old(app)@ }),
    {
        app.items = help_text();
    }

    /// Sets the start screen up: the help text, with the cursor at the top.
    pub fn restore_state(&self, app: &mut App)
        ensures
            final(app)@ == (AppModel {
                items: help_lines(),
                selected_index: 0,
                list_offset: 0,
                ..old(app)@
            }),
    {
        DefaultView::populate_help_text(app);
        app.selected_index = 0;
        app.list_offset = 0;
    }
}

/// The list of contexts.
#[derive(Debug, Clone, Copy)]
pub struct ContextsView;

impl ContextsView {
    pub fn new() -> Self {
        ContextsView
    }

    /// Sets the list of contexts up: its rows, and the cursor where it was.
    pub fn restore_state(&self, app: &mut App)
        ensures
            final(app)@ == old(app)@.populate_contexts_list().restore_view_state(),
    {
        app.populate_contexts_list();
        app.restore_view_state();
    }
}

/// A list of runs: of all pipelines, or of one.
#[derive(Debug, Clone, Copy)]
pub struct RunsView;

impl RunsView {
    pub fn new() -> Self {
        RunsView
    }

    /// The request for the runs of the list.
    pub fn fetch_runs(&self, app: &App) -> (r: FetchRequest)
        ensures
            r@ == app@.runs_request(),
    {
        app.runs_request()
    }

    /// Takes in the runs that the list asked for on coming into view.
    pub fn fetch_initial_data(
        &self,
        app: &mut App,
        request: &FetchRequest,
        outcome: Result<Vec<Run>, DomainError>,
        now: i64,
    )
        ensures
            final(app)@ == old(app)@.load_runs(request@, runs_outcome(outcome), now),
    {
        app.load_runs(request, outcome, now);
    }

    /// Writes the rows of the runs held, at the time `now`, into `target`.
    pub fn populate_runs_items_into(&self, app: &App, target: &mut Vec<String>, now: i64)
        ensures
            final(target).deep_view() == run_lines(app@.state.runs, now),
    {
        *target = run_rows(&app.state.runs, now);
    }

    /// Shows the rows of the runs held, at the time `now`.
    pub fn populate_runs_items(&self, app: &mut App, now: i64)
        ensures
            final(app)@ == (AppModel { items: run_lines(old(app)@.state.runs, now), ..old(app)@ }),
    {
        app.items = run_rows(&app.state.runs, now);
    }

    /// Merges what the poll for runs brought.
    pub fn poll(
        &self,
        app: &mut App,
        request: &FetchRequest,
        outcome: Result<Vec<Run>, DomainError>,
        now: i64,
    )
        ensures
            final(app)@ == old(app)@.merge_runs(request@, runs_outcome(outcome), now),
    {
        app.merge_runs(request, outcome, now);
    }
}

/// The list of pipelines.
#[derive(Debug, Clone, Copy)]
pub struct PipelinesView;

impl PipelinesView {
    pub fn new() -> Self {
        PipelinesView
    }

    /// The request for the pipelines.
    pub fn fetch_pipelines(&self, app: &App) -> (r: FetchRequest)
        ensures
            r@ == (FetchRequestModel {
                view: app@.view,
                url: app@.dagster_url,
                kind: crate::fetch::FetchKindModel::Pipelines,
            }),
    {
        FetchRequest {
            view: app.view.clone(),
            url: app.dagster_url.clone(),
            kind: FetchKind::Pipelines,
        }
    }

    /// Takes in the pipelines that the list asked for on coming into view.
    pub fn fetch_initial_data(
        &self,
        app: &mut App,
        request: &FetchRequest,
        outcome: Result<Vec<Pipeline>, DomainError>,
    )
        requires
            outcome is Ok ==> can_show_all(outcome->Ok_0.deep_view()),
        ensures
            final(app)@ == old(app)@.load_pipelines(request@, pipelines_outcome(outcome)),
    {
        app.load_pipelines(request, outcome);
    }

    /// Writes the rows of the pipelines held into `target`.
    pub fn populate_pipelines_items_into(&self, app: &App, target: &mut Vec<String>)
        requires
            can_show_all(app@.state.pipelines),
        ensures
            final(target).deep_view() == pipeline_lines(app@.state.pipelines),
    {
        *target = pipeline_rows(&app.state.pipelines);
    }

    /// Shows the rows of the pipelines held.
    pub fn populate_pipelines_items(&self, app: &mut App)
        requires
            can_show_all(old(app)@.state.pipelines),
        ensures
            final(app)@ == (AppModel {
                items: pipeline_lines(old(app)@.state.pipelines),
                ..old(app)@
            }),
    {
        app.items = pipeline_rows(&app.state.pipelines);
    }

    /// Merges what the poll for pipelines brought.
    pub fn poll(
        &self,
        app: &mut App,
        request: &FetchRequest,
        outcome: Result<Vec<Pipeline>, DomainError>,
    )
        requires
            outcome is Ok ==> can_show_all(outcome->Ok_0.deep_view()),
        ensures
            final(app)@ == old(app)@.merge_pipelines(request@, pipelines_outcome(outcome)),
    {
        app.merge_pipelines(request, outcome);
    }
}

/// The poll of the detail screen.
#[derive(Debug, Clone, Copy)]
pub struct RunPoller;

impl RunPoller {
    /// Merges what the poll for the run in view brought.
    pub fn poll(&self, app: &mut App, request: &FetchRequest, outcome: Result<Run, DomainError>)
        ensures
            final(app)@ == old(app)@.merge_run(request@, run_outcome(outcome)),
    {
        app.merge_run(request, outcome);
    }
}

impl RunView {
    /// Takes in what the fetch of the run brought: the run is kept, a
    /// failure is handed back.
    pub fn fetch_details(&mut self, outcome: Result<Run, DomainError>) -> (r: Result<
        (),
        DomainError,
    >)
        ensures
            match outcome {
                Ok(run) => r is Ok && final(self)@ == (RunViewModel {
                    details: Some(run@),
                    ..old(self)@
                }),
                Err(e) => r == Err::<(), DomainError>(e) && final(self)@ == old(self)@,
            },
    {
        match outcome {
            Ok(run) => {
                self.details = Some(run);
                Ok(())
            },
            Err(e) => Err(e),
        }
    }
}

} // verus!
