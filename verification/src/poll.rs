//! Bringing fetched data into the dashboard.
//!
//! Data arrives some time after it was asked for. An outcome is merged only
//! if the screen that asked for it is still in view; otherwise it is
//! dropped without a trace. A failure never takes away rows that are shown:
//! it shows in the connection status only.

use vstd::prelude::*;
use vstd::string::*;
use crate::app::{App, AppModel, AppStateModel, ConnectionStatus, StatusModel};
use crate::fetch::{FetchKind, FetchKindModel, FetchRequest, FetchRequestModel};
use crate::rows::{can_show_all, pipeline_lines, pipeline_rows, run_lines, run_rows};
use crate::search::filtered_rows;
use crate::views::{
    DomainError, Pipeline, PipelineModel, Run, RunModel, RunView, RunViewModel, ViewModel, ViewType,
};

verus! {

/// The outcome of a request as a mathematical value: what was fetched, or
/// the message of the failure.
pub type Outcome<T> = Result<T, Seq<char>>;

/// The outcome of a request for runs as a mathematical value.
pub open spec fn runs_outcome(outcome: Result<Vec<Run>, DomainError>) -> Outcome<Seq<RunModel>> {
    match outcome {
        Ok(runs) => Ok(runs.deep_view()),
        Err(e) => Err(e.text()),
    }
}

/// The outcome of a request for pipelines as a mathematical value.
pub open spec fn pipelines_outcome(outcome: Result<Vec<Pipeline>, DomainError>) -> Outcome<
    Seq<PipelineModel>,
> {
    match outcome {
        Ok(pipelines) => Ok(pipelines.deep_view()),
        Err(e) => Err(e.text()),
    }
}

/// The outcome of a request for one run as a mathematical value.
pub open spec fn run_outcome(outcome: Result<Run, DomainError>) -> Outcome<RunModel> {
    match outcome {
        Ok(run) => Ok(run@),
        Err(e) => Err(e.text()),
    }
}

/// The status after a screen could not fetch what it shows.
pub open spec fn load_failure(message: Seq<char>) -> StatusModel {
    StatusModel::Failed("Failed to load data: "@ + message)
}

impl AppModel {
    /// Whether a list of runs is in view.
    pub open spec fn shows_runs(self) -> bool {
        self.view is Runs || self.view is PipelineRuns
    }

    /// Whether the outcome of `request` may still be merged: the screen that
    /// asked is the screen in view.
    pub open spec fn is_current(self, request: FetchRequestModel) -> bool {
        request.view == self.view
    }

    /// Whether the cursor fits the rows shown: it points at a row, and the
    /// list is scrolled no further than the cursor. A list without data rows
    /// asks nothing of the cursor.
    pub open spec fn cursor_fits(self) -> bool {
        self.items.len() <= 2 || (self.selected_index < self.items.len() && self.list_offset
            <= self.selected_index)
    }

    /// The cursor is brought back to the rows shown: a cursor beyond the
    /// last row goes to the last row, and a list that is scrolled beyond the
    /// cursor is scrolled back to it. A list without data rows is left
    /// alone.
    pub open spec fn clamp_cursor(self) -> AppModel {
        if self.items.len() <= 2 {
            self
        } else {
            let row = if self.selected_index >= self.items.len() {
                (self.items.len() - 1) as usize
            } else {
                self.selected_index
            };
            AppModel {
                selected_index: row,
                list_offset: if self.list_offset > row {
                    row
                } else {
                    self.list_offset
                },
                ..self
            }
        }
    }

    /// New rows take the place of the old ones. While a query narrows the
    /// rows, the new rows become the rows to search in and the query is
    /// applied to them. The cursor is brought back to the rows shown.
    pub open spec fn show_rows(self, rows: Seq<Seq<char>>) -> AppModel {
        if self.has_filter() {
            (AppModel { unfiltered_items: rows, ..self }).apply_search_filter().clamp_cursor()
        } else {
            (AppModel { items: rows, ..self }).clamp_cursor()
        }
    }

    /// The dashboard after the poll for runs came back. An outcome that is
    /// no longer current changes nothing. The status follows the outcome.
    /// Runs replace the runs held and their rows are shown; an outcome
    /// without a run leaves the runs held and their rows as they are.
    pub open spec fn merge_runs(
        self,
        request: FetchRequestModel,
        outcome: Outcome<Seq<RunModel>>,
        now: i64,
    ) -> AppModel {
        if !self.is_current(request) || !self.shows_runs() {
            self
        } else {
            match outcome {
                Ok(runs) => if runs.len() == 0 {
                    AppModel { connection_status: StatusModel::Connected, ..self }
                } else {
                    (AppModel {
                        connection_status: StatusModel::Connected,
                        state: AppStateModel { runs, ..self.state },
                        ..self
                    }).show_rows(run_lines(runs, now))
                },
                Err(message) => AppModel {
                    connection_status: StatusModel::Failed(message),
                    ..self
                },
            }
        }
    }

    /// The dashboard after the runs that a list asked for on coming into
    /// view have arrived. The rows that stood for the list being fetched
    /// give way to the rows of the runs, and the cursor is brought back to
    /// them; after a failure the rows stay. The status follows the outcome.
    pub open spec fn load_runs(
        self,
        request: FetchRequestModel,
        outcome: Outcome<Seq<RunModel>>,
        now: i64,
    ) -> AppModel {
        if !self.is_current(request) || !self.shows_runs() {
            self
        } else {
            match outcome {
                Ok(runs) => (AppModel {
                    connection_status: StatusModel::Connected,
                    state: AppStateModel { runs, ..self.state },
                    items: run_lines(runs, now),
                    ..self
                }).clamp_cursor(),
                Err(message) => AppModel { connection_status: load_failure(message), ..self },
            }
        }
    }

    /// The dashboard after the poll for pipelines came back. An outcome
    /// that is no longer current changes nothing. Pipelines replace the
    /// pipelines held and their rows are shown; the status follows the
    /// outcome.
    pub open spec fn merge_pipelines(
        self,
        request: FetchRequestModel,
        outcome: Outcome<Seq<PipelineModel>>,
    ) -> AppModel {
        if !self.is_current(request) || !(self.view is Pipelines) {
            self
        } else {
            match outcome {
                Ok(pipelines) => (AppModel {
                    connection_status: StatusModel::Connected,
                    state: AppStateModel { pipelines, ..self.state },
                    ..self
                }).show_rows(pipeline_lines(pipelines)),
                Err(message) => AppModel {
                    connection_status: StatusModel::Failed(message),
                    ..self
                },
            }
        }
    }

    /// The dashboard after the pipelines that the list asked for on coming
    /// into view have arrived: their rows are shown and the cursor is
    /// brought back to them; after a failure the rows stay. The status
    /// follows the outcome.
    pub open spec fn load_pipelines(
        self,
        request: FetchRequestModel,
        outcome: Outcome<Seq<PipelineModel>>,
    ) -> AppModel {
        if !self.is_current(request) || !(self.view is Pipelines) {
            self
        } else {
            match outcome {
                Ok(pipelines) => (AppModel {
                    connection_status: StatusModel::Connected,
                    state: AppStateModel { pipelines, ..self.state },
                    items: pipeline_lines(pipelines),
                    ..self
                }).clamp_cursor(),
                Err(message) => AppModel { connection_status: load_failure(message), ..self },
            }
        }
    }

    /// The dashboard after the poll for the run in view came back.
    pub open spec fn merge_run(self, request: FetchRequestModel, outcome: Outcome<RunModel>)
        -> AppModel {
        if !self.is_current(request) || !(self.view is Run) {
            self
        } else {
            match outcome {
                Ok(run) => AppModel {
                    run_view: match self.run_view {
                        Some(run_view) => Some(RunViewModel { details: Some(run), ..run_view }),
                        None => None,
                    },
                    connection_status: StatusModel::Connected,
                    ..self
                },
                Err(message) => AppModel {
                    connection_status: StatusModel::Failed(message),
                    ..self
                },
            }
        }
    }

    /// The dashboard after the run that was picked in a list has been
    /// fetched: the run comes into view, with the list as the way back, and
    /// its new detail screen holds the run, or nothing after a failure.
    pub open spec fn open_run(self, request: FetchRequestModel, outcome: Outcome<RunModel>)
        -> AppModel {
        if !self.is_current(request) {
            self
        } else {
            match request.kind {
                FetchKindModel::Run { run_id } => {
                    let entered = self.enter_view(ViewModel::Run(run_id), false);
                    AppModel {
                        run_view: Some(
                            RunViewModel {
                                run_id,
                                details: match outcome {
                                    Ok(run) => Some(run),
                                    Err(_) => None,
                                },
                                scroll_offset: 0,
                                horizontal_scroll: 0,
                            },
                        ),
                        connection_status: match outcome {
                            Ok(_) => StatusModel::Connected,
                            Err(message) => StatusModel::Failed(message),
                        },
                        ..entered
                    }
                },
                _ => self,
            }
        }
    }
}

impl App {
    /// Whether a list of runs is in view.
    pub fn shows_runs(&self) -> (r: bool)
        ensures
            r == self@.shows_runs(),
    {
        match &self.view {
            ViewType::Runs | ViewType::PipelineRuns(_) => true,
            _ => false,
        }
    }

    /// Whether a query narrows the rows.
    pub fn has_filter(&self) -> (r: bool)
        ensures
            r == self@.has_filter(),
    {
        self.search_mode || self.has_committed_filter
    }

    /// Brings the cursor back to the rows shown.
    pub fn clamp_cursor(&mut self)
        ensures
            final(self)@ == old(self)@.clamp_cursor(),
            final(self)@.cursor_fits(),
    {
        if self.items.len() <= 2 {
            return ;
        }
        if self.selected_index >= self.items.len() {
            self.selected_index = self.items.len() - 1;
        }
        if self.list_offset > self.selected_index {
            self.list_offset = self.selected_index;
        }
    }

    /// Shows new rows, through the query if one narrows the rows, and
    /// brings the cursor back to the rows shown.
    pub fn show_rows(&mut self, rows: Vec<String>)
        ensures
            final(self)@ == old(self)@.show_rows(rows.deep_view()),
            final(self)@.cursor_fits(),
    {
        if self.has_filter() {
            self.unfiltered_items = rows;
            self.apply_search_filter();
        } else {
            self.items = rows;
        }
        self.clamp_cursor();
    }

    /// Merges what the poll for runs brought, at the time `now`.
    pub fn merge_runs(
        &mut self,
        request: &FetchRequest,
        outcome: Result<Vec<Run>, DomainError>,
        now: i64,
    )
        ensures
            final(self)@ == old(self)@.merge_runs(request@, runs_outcome(outcome), now),
            request@.view != old(self)@.view ==> final(self)@ == old(self)@,
            old(self)@.is_current(request@) && old(self)@.shows_runs() && outcome is Ok
                && outcome->Ok_0.len() > 0 ==> final(self)@.cursor_fits(),
    {
        if !(request.view == self.view) || !self.shows_runs() {
            return ;
        }
        match outcome {
            Ok(runs) => {
                self.connection_status = ConnectionStatus::Connected;
                if runs.len() == 0 {
                    return ;
                }
                self.state.runs = runs;
                let rows = run_rows(&self.state.runs, now);
                self.show_rows(rows);
            },
            Err(e) => {
                self.connection_status = ConnectionStatus::Failed(e.message());
            },
        }
    }

    /// Takes in the runs that a list asked for on coming into view, at the
    /// time `now`.
    pub fn load_runs(
        &mut self,
        request: &FetchRequest,
        outcome: Result<Vec<Run>, DomainError>,
        now: i64,
    )
        ensures
            final(self)@ == old(self)@.load_runs(request@, runs_outcome(outcome), now),
            request@.view != old(self)@.view ==> final(self)@ == old(self)@,
            old(self)@.is_current(request@) && old(self)@.shows_runs() && outcome is Ok
                ==> final(self)@.cursor_fits(),
    {
        if !(request.view == self.view) || !self.shows_runs() {
            return ;
        }
        match outcome {
            Ok(runs) => {
                self.connection_status = ConnectionStatus::Connected;
                self.state.runs = runs;
                self.items = run_rows(&self.state.runs, now);
                self.clamp_cursor();
            },
            Err(e) => {
                self.connection_status = ConnectionStatus::Failed(
                    String::from_str("Failed to load data: ").concat(e.message().as_str()),
                );
            },
        }
    }

    /// Merges what the poll for pipelines brought.
    pub fn merge_pipelines(
        &mut self,
        request: &FetchRequest,
        outcome: Result<Vec<Pipeline>, DomainError>,
    )
        requires
            outcome is Ok ==> can_show_all(outcome->Ok_0.deep_view()),
        ensures
            final(self)@ == old(self)@.merge_pipelines(request@, pipelines_outcome(outcome)),
            request@.view != old(self)@.view ==> final(self)@ == old(self)@,
            old(self)@.is_current(request@) && old(self)@.view is Pipelines && outcome is Ok
                ==> final(self)@.cursor_fits(),
    {
        let on_pipelines = match &self.view {
            ViewType::Pipelines => true,
            _ => false,
        };
        if !(request.view == self.view) || !on_pipelines {
            return ;
        }
        match outcome {
            Ok(pipelines) => {
                self.connection_status = ConnectionStatus::Connected;
                self.state.pipelines = pipelines;
                let rows = pipeline_rows(&self.state.pipelines);
                self.show_rows(rows);
            },
            Err(e) => {
                self.connection_status = ConnectionStatus::Failed(e.message());
            },
        }
    }

    /// Takes in the pipelines that the list asked for on coming into view.
    pub fn load_pipelines(
        &mut self,
        request: &FetchRequest,
        outcome: Result<Vec<Pipeline>, DomainError>,
    )
        requires
            outcome is Ok ==> can_show_all(outcome->Ok_0.deep_view()),
        ensures
            final(self)@ == old(self)@.load_pipelines(request@, pipelines_outcome(outcome)),
            request@.view != old(self)@.view ==> final(self)@ == old(self)@,
            old(self)@.is_current(request@) && old(self)@.view is Pipelines && outcome is Ok
                ==> final(self)@.cursor_fits(),
    {
        let on_pipelines = match &self.view {
            ViewType::Pipelines => true,
            _ => false,
        };
        if !(request.view == self.view) || !on_pipelines {
            return ;
        }
        match outcome {
            Ok(pipelines) => {
                self.connection_status = ConnectionStatus::Connected;
                self.state.pipelines = pipelines;
                self.items = pipeline_rows(&self.state.pipelines);
                self.clamp_cursor();
            },
            Err(e) => {
                self.connection_status = ConnectionStatus::Failed(
                    String::from_str("Failed to load data: ").concat(e.message().as_str()),
                );
            },
        }
    }

    /// Merges what the poll for the run in view brought.
    pub fn merge_run(&mut self, request: &FetchRequest, outcome: Result<Run, DomainError>)
        ensures
            final(self)@ == old(self)@.merge_run(request@, run_outcome(outcome)),
            request@.view != old(self)@.view ==> final(self)@ == old(self)@,
    {
        let on_run = match &self.view {
            ViewType::Run(_) => true,
            _ => false,
        };
        if !(request.view == self.view) || !on_run {
            return ;
        }
        match outcome {
            Ok(run) => {
                if let Some(run_view) = &mut self.run_view {
                    run_view.details = Some(run);
                }
                self.connection_status = ConnectionStatus::Connected;
            },
            Err(e) => {
                self.connection_status = ConnectionStatus::Failed(e.message());
            },
        }
    }

    /// Opens the detail screen of the run that was picked in a list, with
    /// what the fetch of the run brought.
    pub fn open_run(&mut self, request: &FetchRequest, outcome: Result<Run, DomainError>)
        ensures
            final(self)@ == old(self)@.open_run(request@, run_outcome(outcome)),
            request@.view != old(self)@.view ==> final(self)@ == old(self)@,
    {
        if !(request.view == self.view) {
            return ;
        }
        match &request.kind {
            FetchKind::Run { run_id } => {
                let _ = self.enter_view(ViewType::Run(run_id.clone()), false);
                let mut run_view = RunView::new(run_id.clone());
                match outcome {
                    Ok(run) => {
                        run_view.details = Some(run);
                        self.connection_status = ConnectionStatus::Connected;
                    },
                    Err(e) => {
                        self.connection_status = ConnectionStatus::Failed(e.message());
                    },
                }
                self.run_view = Some(run_view);
            },
            _ => {},
        }
    }
}

/// What was fetched for a screen that is no longer in view is dropped:
/// neither the rows, nor the data held, nor anything else changes.
pub proof fn lemma_stale_outcome_is_dropped(
    app: AppModel,
    request: FetchRequestModel,
    runs: Outcome<Seq<RunModel>>,
    pipelines: Outcome<Seq<PipelineModel>>,
    run: Outcome<RunModel>,
    now: i64,
)
    requires
        request.view != app.view,
    ensures
        app.merge_runs(request, runs, now) == app,
        app.load_runs(request, runs, now) == app,
        app.merge_pipelines(request, pipelines) == app,
        app.load_pipelines(request, pipelines) == app,
        app.merge_run(request, run) == app,
        app.open_run(request, run) == app,
{
}

/// Bringing the cursor back makes it fit the rows shown, and leaves a
/// cursor alone that fits them already.
pub proof fn lemma_clamped_cursor_fits(app: AppModel)
    requires
        app.items.len() <= usize::MAX,
    ensures
        app.clamp_cursor().cursor_fits(),
        app.clamp_cursor().items == app.items,
        app.cursor_fits() ==> app.clamp_cursor() == app,
{
}

/// A cursor that is restored when a list of runs comes into view never
/// points past the runs that then arrive. When fewer runs arrive than the
/// remembered cursor needs, the cursor goes to the last of them; a
/// remembered cursor that fits the new rows is kept as it was remembered.
pub proof fn lemma_restored_cursor_fits_the_loaded_runs(
    app: AppModel,
    target: ViewModel,
    reset_history: bool,
    runs: Seq<RunModel>,
    now: i64,
)
    requires
        target != app.view,
        target is Runs || target is PipelineRuns,
        runs.len() + 2 <= usize::MAX,
    ensures
        ({
            let entered = app.enter_view(target, reset_history);
            let loaded = entered.load_runs(entered.runs_request(), Ok(runs), now);
            &&& entered.load_request() == Some(entered.runs_request())
            &&& loaded.items == run_lines(runs, now)
            &&& loaded.cursor_fits()
            &&& runs.len() > 0 ==> 2 <= loaded.selected_index < runs.len() + 2
                && loaded.list_offset <= loaded.selected_index
            &&& runs.len() > 0 && entered.selected_index >= runs.len() + 2
                ==> loaded.selected_index == runs.len() + 1
            &&& entered.selected_index < runs.len() + 2 && entered.list_offset
                <= entered.selected_index ==> loaded.selected_index == entered.selected_index
                && loaded.list_offset == entered.list_offset
        }),
{
    let entered = app.enter_view(target, reset_history);
    assert(run_lines(runs, now).len() == runs.len() + 2);
}

/// The same for the list of pipelines.
pub proof fn lemma_restored_cursor_fits_the_loaded_pipelines(
    app: AppModel,
    reset_history: bool,
    pipelines: Seq<PipelineModel>,
)
    requires
        !(app.view is Pipelines),
        pipeline_lines(pipelines).len() <= usize::MAX,
    ensures
        ({
            let entered = app.enter_view(ViewModel::Pipelines, reset_history);
            let loaded = entered.load_pipelines(entered.load_request()->0, Ok(pipelines));
            &&& entered.load_request() is Some
            &&& loaded.items == pipeline_lines(pipelines)
            &&& loaded.cursor_fits()
            &&& loaded.items.len() > 2 ==> 2 <= loaded.selected_index
        }),
{
}

/// Rows that a poll brings never leave the cursor past the rows shown,
/// whether a query narrows them or not.
pub proof fn lemma_merged_cursor_fits(
    app: AppModel,
    request: FetchRequestModel,
    runs: Seq<RunModel>,
    pipelines: Seq<PipelineModel>,
    now: i64,
)
    requires
        app.is_current(request),
        runs.len() > 0,
        runs.len() + 2 <= usize::MAX,
        pipeline_lines(pipelines).len() <= usize::MAX,
    ensures
        app.shows_runs() ==> app.merge_runs(request, Ok(runs), now).cursor_fits(),
        app.view is Pipelines ==> app.merge_pipelines(request, Ok(pipelines)).cursor_fits(),
{
    assert(run_lines(runs, now).len() == runs.len() + 2);
    let run_rows = run_lines(runs, now);
    let pipeline_rows = pipeline_lines(pipelines);
    if app.search_input.len() > 0 {
        crate::search::data_rows(run_rows).lemma_filter_len(crate::search::matcher(app.search_input));
        crate::search::data_rows(pipeline_rows).lemma_filter_len(
            crate::search::matcher(app.search_input),
        );
    }
}

/// While a query narrows a list of runs, runs that the poll brings replace
/// the rows to search in, and the rows shown are those that the query
/// picks from the new rows: the query stays in force.
pub proof fn lemma_merge_keeps_filter(
    app: AppModel,
    request: FetchRequestModel,
    runs: Seq<RunModel>,
    now: i64,
)
    requires
        app.is_current(request),
        app.shows_runs(),
        app.has_filter(),
        runs.len() > 0,
    ensures
        app.merge_runs(request, Ok(runs), now).state.runs == runs,
        app.merge_runs(request, Ok(runs), now).unfiltered_items == run_lines(runs, now),
        app.merge_runs(request, Ok(runs), now).items == filtered_rows(
            run_lines(runs, now),
            app.search_input,
        ),
        app.merge_runs(request, Ok(runs), now).search_input == app.search_input,
        app.merge_runs(request, Ok(runs), now).has_filter(),
{
}

/// The same for the list of pipelines.
pub proof fn lemma_merge_keeps_pipeline_filter(
    app: AppModel,
    request: FetchRequestModel,
    pipelines: Seq<PipelineModel>,
)
    requires
        app.is_current(request),
        app.view is Pipelines,
        app.has_filter(),
    ensures
        app.merge_pipelines(request, Ok(pipelines)).unfiltered_items == pipeline_lines(pipelines),
        app.merge_pipelines(request, Ok(pipelines)).items == filtered_rows(
            pipeline_lines(pipelines),
            app.search_input,
        ),
        app.merge_pipelines(request, Ok(pipelines)).has_filter(),
{
}

/// What was fetched never parts the detail screen from the screen in
/// view, and never harms the way back.
pub proof fn lemma_outcomes_keep_the_dashboard_sound(
    app: AppModel,
    request: FetchRequestModel,
    runs: Outcome<Seq<RunModel>>,
    pipelines: Outcome<Seq<PipelineModel>>,
    run: Outcome<RunModel>,
    now: i64,
)
    requires
        app.is_sound(),
    ensures
        app.merge_runs(request, runs, now).is_sound(),
        app.load_runs(request, runs, now).is_sound(),
        app.merge_pipelines(request, pipelines).is_sound(),
        app.load_pipelines(request, pipelines).is_sound(),
        app.merge_run(request, run).is_sound(),
        app.open_run(request, run).is_sound(),
{
    match request.kind {
        FetchKindModel::Run { run_id } => {
            crate::navigation::lemma_history_stays_sound(app, ViewModel::Run(run_id), false);
            crate::navigation::lemma_detail_stays_sound(app, ViewModel::Run(run_id), false);
        },
        _ => {},
    }
}

/// The connection status follows the latest answer of the service: after
/// an outcome that is still current it says that the service is connected
/// if the fetch went well, and gives the reason if it did not.
pub proof fn lemma_status_follows_the_outcome(
    app: AppModel,
    request: FetchRequestModel,
    runs: Seq<RunModel>,
    pipelines: Seq<PipelineModel>,
    run: RunModel,
    message: Seq<char>,
    now: i64,
)
    requires
        app.is_current(request),
    ensures
        app.shows_runs() ==> {
            &&& app.merge_runs(request, Ok(runs), now).connection_status == StatusModel::Connected
            &&& app.load_runs(request, Ok(runs), now).connection_status == StatusModel::Connected
            &&& app.merge_runs(request, Err(message), now).connection_status
                == StatusModel::Failed(message)
            &&& app.load_runs(request, Err(message), now).connection_status == load_failure(
                message,
            )
        },
        app.view is Pipelines ==> {
            &&& app.merge_pipelines(request, Ok(pipelines)).connection_status
                == StatusModel::Connected
            &&& app.load_pipelines(request, Ok(pipelines)).connection_status
                == StatusModel::Connected
            &&& app.merge_pipelines(request, Err(message)).connection_status
                == StatusModel::Failed(message)
            &&& app.load_pipelines(request, Err(message)).connection_status == load_failure(
                message,
            )
        },
        app.view is Run ==> {
            &&& app.merge_run(request, Ok(run)).connection_status == StatusModel::Connected
            &&& app.merge_run(request, Err(message)).connection_status == StatusModel::Failed(
                message,
            )
        },
        request.kind is Run ==> {
            &&& app.open_run(request, Ok(run)).connection_status == StatusModel::Connected
            &&& app.open_run(request, Err(message)).connection_status == StatusModel::Failed(
                message,
            )
        },
{
}

/// A poll that fails changes the connection status and nothing else: the
/// rows that are shown stay.
pub proof fn lemma_failed_poll_keeps_rows(
    app: AppModel,
    request: FetchRequestModel,
    message: Seq<char>,
    now: i64,
)
    ensures
        app.merge_runs(request, Err(message), now).items == app.items,
        app.merge_runs(request, Err(message), now).state == app.state,
        app.merge_pipelines(request, Err(message)).items == app.items,
        app.merge_pipelines(request, Err(message)).state == app.state,
        app.merge_run(request, Err(message)).run_view == app.run_view,
{
}

} // verus!
