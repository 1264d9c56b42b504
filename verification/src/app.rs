//! The state of the dashboard: the screen in view, the way back, the rows
//! shown and the cursor in them, the two input lines, and the data fetched
//! from the service.

use vstd::prelude::*;
use vstd::string::*;
use vstd::std_specs::cmp::PartialEqSpecImpl;
use crate::cache::{CacheModel, ViewStateCache};
use crate::config::{Config, ConfigModel};
use crate::rows::{help_lines, help_text};
use crate::views::{
    Pipeline, PipelineModel, Run, RunModel, RunView, RunViewModel, ViewModel, ViewType,
};

verus! {

/// Whether the service answered the latest request.
#[derive(Debug)]
pub enum ConnectionStatus {
    Connected,
    /// The latest request failed, with the reason.
    Failed(String),
    Disconnected,
}

/// A connection status as a mathematical value.
pub enum StatusModel {
    Connected,
    Failed(Seq<char>),
    Disconnected,
}

impl View for ConnectionStatus {
    type V = StatusModel;

    open spec fn view(&self) -> StatusModel {
        match self {
            ConnectionStatus::Connected => StatusModel::Connected,
            ConnectionStatus::Failed(reason) => StatusModel::Failed(reason@),
            ConnectionStatus::Disconnected => StatusModel::Disconnected,
        }
    }
}

impl Clone for ConnectionStatus {
    fn clone(&self) -> (r: Self)
        ensures
            r@ == self@,
    {
        match self {
            ConnectionStatus::Connected => ConnectionStatus::Connected,
            ConnectionStatus::Failed(reason) => ConnectionStatus::Failed(reason.clone()),
            ConnectionStatus::Disconnected => ConnectionStatus::Disconnected,
        }
    }
}

impl PartialEq for ConnectionStatus {
    fn eq(&self, other: &Self) -> (r: bool) {
        match (self, other) {
            (ConnectionStatus::Connected, ConnectionStatus::Connected) => true,
            (ConnectionStatus::Failed(a), ConnectionStatus::Failed(b)) => *a == *b,
            (ConnectionStatus::Disconnected, ConnectionStatus::Disconnected) => true,
            _ => false,
        }
    }
}

impl PartialEqSpecImpl for ConnectionStatus {
    open spec fn obeys_eq_spec() -> bool {
        true
    }

    open spec fn eq_spec(&self, other: &Self) -> bool {
        self@ == other@
    }
}

impl Default for ConnectionStatus {
    fn default() -> (r: Self)
        ensures
            r@ == StatusModel::Disconnected,
    {
        ConnectionStatus::Disconnected
    }
}

/// The data fetched from the service.
#[derive(Debug)]
pub struct AppState {
    pub runs: Vec<Run>,
    pub pipelines: Vec<Pipeline>,
    /// The place in the run list from which the service is asked to go on.
    pub cursor: String,
    /// The pipeline whose runs are listed, when the list is narrowed to one.
    pub selected_pipeline: Option<String>,
}

/// The fetched data as a mathematical value.
pub struct AppStateModel {
    pub runs: Seq<RunModel>,
    pub pipelines: Seq<PipelineModel>,
    pub cursor: Seq<char>,
    pub selected_pipeline: Option<Seq<char>>,
}

impl View for AppState {
    type V = AppStateModel;

    open spec fn view(&self) -> AppStateModel {
        AppStateModel {
            runs: self.runs.deep_view(),
            pipelines: self.pipelines.deep_view(),
            cursor: self.cursor@,
            selected_pipeline: match self.selected_pipeline {
                Some(name) => Some(name@),
                None => None,
            },
        }
    }
}

impl Default for AppState {
    fn default() -> (r: Self)
        ensures
            r@ == (AppStateModel {
                runs: Seq::empty(),
                pipelines: Seq::empty(),
                cursor: Seq::empty(),
                selected_pipeline: None,
            }),
    {
        let r = AppState {
            runs: Vec::new(),
            pipelines: Vec::new(),
            cursor: String::new(),
            selected_pipeline: None,
        };
        assert(r.runs.deep_view() =~= Seq::empty());
        assert(r.pipelines.deep_view() =~= Seq::empty());
        r
    }
}

/// The dashboard.
#[derive(Debug)]
pub struct App {
    /// The screen in view.
    pub view: ViewType,
    /// The screens to go back to, the nearest last.
    pub view_history: Vec<ViewType>,
    /// A screen that is to be entered before the next frame is drawn, and
    /// whether entering it resets the way back.
    pub next_view: Option<(ViewType, bool)>,
    /// The cursors of the screens that were left.
    pub view_state_cache: ViewStateCache,
    /// The detail screen, while a run is in view.
    pub run_view: Option<RunView>,
    /// The selected row.
    pub selected_index: usize,
    /// The first row shown.
    pub list_offset: usize,
    /// The rows shown.
    pub items: Vec<String>,
    /// All rows of the screen, kept while a filter narrows `items`.
    pub unfiltered_items: Vec<String>,
    /// Whether the command line takes the keys.
    pub command_mode: bool,
    pub command_input: String,
    /// Whether the search line takes the keys.
    pub search_mode: bool,
    pub search_input: String,
    /// Whether a filter was set and is still in force.
    pub has_committed_filter: bool,
    /// The endpoint of the service.
    pub dagster_url: String,
    pub connection_status: ConnectionStatus,
    pub state: AppState,
    pub config: Config,
}

/// The dashboard as a mathematical value.
pub struct AppModel {
    pub view: ViewModel,
    pub view_history: Seq<ViewModel>,
    pub next_view: Option<(ViewModel, bool)>,
    pub view_state_cache: CacheModel,
    pub run_view: Option<RunViewModel>,
    pub selected_index: usize,
    pub list_offset: usize,
    pub items: Seq<Seq<char>>,
    pub unfiltered_items: Seq<Seq<char>>,
    pub command_mode: bool,
    pub command_input: Seq<char>,
    pub search_mode: bool,
    pub search_input: Seq<char>,
    pub has_committed_filter: bool,
    pub dagster_url: Seq<char>,
    pub connection_status: StatusModel,
    pub state: AppStateModel,
    pub config: ConfigModel,
}

impl View for App {
    type V = AppModel;

    open spec fn view(&self) -> AppModel {
        AppModel {
            view: self.view@,
            view_history: self.view_history.deep_view(),
            next_view: match self.next_view {
                Some((view, reset_history)) => Some((view@, reset_history)),
                None => None,
            },
            view_state_cache: self.view_state_cache@,
            run_view: match self.run_view {
                Some(run_view) => Some(run_view@),
                None => None,
            },
            selected_index: self.selected_index,
            list_offset: self.list_offset,
            items: self.items.deep_view(),
            unfiltered_items: self.unfiltered_items.deep_view(),
            command_mode: self.command_mode,
            command_input: self.command_input@,
            search_mode: self.search_mode,
            search_input: self.search_input@,
            has_committed_filter: self.has_committed_filter,
            dagster_url: self.dagster_url@,
            connection_status: self.connection_status@,
            state: self.state@,
            config: self.config@,
        }
    }
}

impl AppModel {
    /// The dashboard at its start, with the configuration `config`: the start
    /// screen with the help text, no way back, nothing fetched, and the
    /// endpoint of the context in use.
    pub open spec fn initial(config: ConfigModel) -> AppModel {
        AppModel {
            view: ViewModel::Default,
            view_history: Seq::empty(),
            next_view: None,
            view_state_cache: Map::empty(),
            run_view: None,
            selected_index: 0,
            list_offset: 0,
            items: help_lines(),
            unfiltered_items: Seq::empty(),
            command_mode: false,
            command_input: Seq::empty(),
            search_mode: false,
            search_input: Seq::empty(),
            has_committed_filter: false,
            dagster_url: config.current_context().url,
            connection_status: StatusModel::Disconnected,
            state: AppStateModel {
                runs: Seq::empty(),
                pipelines: Seq::empty(),
                cursor: Seq::empty(),
                selected_pipeline: None,
            },
            config,
        }
    }

    /// The way back holds no screen twice in a row, and does not end in the
    /// screen in view.
    pub open spec fn history_is_sound(self) -> bool {
        &&& forall|i: int|
            0 <= i < self.view_history.len() - 1 ==> #[trigger] self.view_history[i]
                != self.view_history[i + 1]
        &&& self.view_history.len() > 0 ==> self.view_history.last() != self.view
    }

    /// The detail screen belongs to the screen in view: a run in view has
    /// the detail screen of that run, and no other screen has one.
    pub open spec fn detail_is_sound(self) -> bool {
        match (self.view, self.run_view) {
            (ViewModel::Run(id), Some(run_view)) => run_view.run_id == id,
            (ViewModel::Run(_), None) => false,
            (_, Some(_)) => false,
            (_, None) => true,
        }
    }

    /// The way back is sound and the detail screen is in step with the
    /// screen in view.
    pub open spec fn is_sound(self) -> bool {
        self.history_is_sound() && self.detail_is_sound()
    }
}

impl Default for App {
    /// The dashboard at its start, with the default configuration.
    fn default() -> (r: Self)
        ensures
            r@ == AppModel::initial(
                ConfigModel {
                    last_context: "default"@,
                    contexts: seq![("default"@, crate::config::default_context())],
                },
            ),
    {
        App::new(Config::default())
    }
}

impl App {
    /// The dashboard at its start, with the configuration `config`.
    pub fn new(config: Config) -> (r: Self)
        ensures
            r@ == AppModel::initial(config@),
            r@.is_sound(),
    {
        let current = config.get_current_context();
        let r = App {
            view: ViewType::Default,
            view_history: Vec::new(),
            next_view: None,
            view_state_cache: ViewStateCache::new(),
            run_view: None,
            selected_index: 0,
            list_offset: 0,
            items: help_text(),
            unfiltered_items: Vec::new(),
            command_mode: false,
            command_input: String::new(),
            search_mode: false,
            search_input: String::new(),
            has_committed_filter: false,
            dagster_url: current.url,
            connection_status: ConnectionStatus::Disconnected,
            state: AppState::default(),
            config,
        };
        assert(r.view_history.deep_view() =~= Seq::empty());
        assert(r.unfiltered_items.deep_view() =~= Seq::empty());
        r
    }
}

} // verus!
