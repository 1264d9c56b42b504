//! The screens of the dashboard and the records they show.

use vstd::prelude::*;
use vstd::std_specs::cmp::PartialEqSpecImpl;

verus! {

/// One screen of the dashboard.
#[derive(Debug, Hash)]
pub enum ViewType {
    /// The start screen with the help text.
    Default,
    /// The list of all runs.
    Runs,
    /// The detail of one run, named by its id.
    Run(String),
    /// The list of connection contexts.
    Contexts,
    /// The list of pipelines.
    Pipelines,
    /// The list of the runs of one pipeline, named by the pipeline.
    PipelineRuns(String),
}

/// A screen as a mathematical value.
pub enum ViewModel {
    Default,
    Runs,
    Run(Seq<char>),
    Contexts,
    Pipelines,
    PipelineRuns(Seq<char>),
}

impl View for ViewType {
    type V = ViewModel;

    open spec fn view(&self) -> ViewModel {
        match self {
            ViewType::Default => ViewModel::Default,
            ViewType::Runs => ViewModel::Runs,
            ViewType::Run(id) => ViewModel::Run(id@),
            ViewType::Contexts => ViewModel::Contexts,
            ViewType::Pipelines => ViewModel::Pipelines,
            ViewType::PipelineRuns(name) => ViewModel::PipelineRuns(name@),
        }
    }
}

impl DeepView for ViewType {
    type V = ViewModel;

    open spec fn deep_view(&self) -> ViewModel {
        self@
    }
}

impl Clone for ViewType {
    fn clone(&self) -> (r: Self)
        ensures
            r@ == self@,
    {
        match self {
            ViewType::Default => ViewType::Default,
            ViewType::Runs => ViewType::Runs,
            ViewType::Run(id) => ViewType::Run(id.clone()),
            ViewType::Contexts => ViewType::Contexts,
            ViewType::Pipelines => ViewType::Pipelines,
            ViewType::PipelineRuns(name) => ViewType::PipelineRuns(name.clone()),
        }
    }
}

impl PartialEq for ViewType {
    fn eq(&self, other: &Self) -> (r: bool) {
        match (self, other) {
            (ViewType::Default, ViewType::Default) => true,
            (ViewType::Runs, ViewType::Runs) => true,
            (ViewType::Run(a), ViewType::Run(b)) => *a == *b,
            (ViewType::Contexts, ViewType::Contexts) => true,
            (ViewType::Pipelines, ViewType::Pipelines) => true,
            (ViewType::PipelineRuns(a), ViewType::PipelineRuns(b)) => *a == *b,
            _ => false,
        }
    }
}

impl PartialEqSpecImpl for ViewType {
    open spec fn obeys_eq_spec() -> bool {
        true
    }

    open spec fn eq_spec(&self, other: &Self) -> bool {
        self@ == other@
    }
}

impl Eq for ViewType {

}

impl Default for ViewType {
    fn default() -> (r: Self)
        ensures
            r@ == ViewModel::Default,
    {
        ViewType::Default
    }
}

impl ViewModel {
    /// Whether the screen is a list with a header row and a separator row
    /// whose cursor is remembered when the screen is left.
    pub open spec fn keeps_cursor(self) -> bool {
        !(self is Default) && !(self is Run)
    }
}

/// One run of a job, as the service reports it.
#[derive(Debug)]
pub struct Run {
    pub run_id: String,
    pub job_name: String,
    pub status: String,
    pub run_config_yaml: String,
    /// When the run started, in whole seconds since the epoch.
    pub start_time: Option<i64>,
    /// When the run ended, in whole seconds since the epoch.
    pub end_time: Option<i64>,
    /// How long the run took, as the duration column shows it.
    pub duration: String,
}

/// A run as a mathematical value.
pub struct RunModel {
    pub run_id: Seq<char>,
    pub job_name: Seq<char>,
    pub status: Seq<char>,
    pub run_config_yaml: Seq<char>,
    pub start_time: Option<i64>,
    pub end_time: Option<i64>,
    pub duration: Seq<char>,
}

impl View for Run {
    type V = RunModel;

    open spec fn view(&self) -> RunModel {
        RunModel {
            run_id: self.run_id@,
            job_name: self.job_name@,
            status: self.status@,
            run_config_yaml: self.run_config_yaml@,
            start_time: self.start_time,
            end_time: self.end_time,
            duration: self.duration@,
        }
    }
}

impl DeepView for Run {
    type V = RunModel;

    open spec fn deep_view(&self) -> RunModel {
        self@
    }
}

impl Clone for Run {
    fn clone(&self) -> (r: Self)
        ensures
            r@ == self@,
    {
        Run {
            run_id: self.run_id.clone(),
            job_name: self.job_name.clone(),
            status: self.status.clone(),
            run_config_yaml: self.run_config_yaml.clone(),
            start_time: self.start_time,
            end_time: self.end_time,
            duration: self.duration.clone(),
        }
    }
}

/// The detail screen of one run. It is made when the screen is entered and
/// dropped when it is left.
#[derive(Debug)]
pub struct RunView {
    pub run_id: String,
    /// The run, once it has been fetched.
    pub details: Option<Run>,
    pub scroll_offset: usize,
    pub horizontal_scroll: usize,
}

/// A detail screen as a mathematical value.
pub struct RunViewModel {
    pub run_id: Seq<char>,
    pub details: Option<RunModel>,
    pub scroll_offset: usize,
    pub horizontal_scroll: usize,
}

impl View for RunView {
    type V = RunViewModel;

    open spec fn view(&self) -> RunViewModel {
        RunViewModel {
            run_id: self.run_id@,
            details: match self.details {
                Some(run) => Some(run@),
                None => None,
            },
            scroll_offset: self.scroll_offset,
            horizontal_scroll: self.horizontal_scroll,
        }
    }
}

impl RunView {
    /// The detail screen of the run `run_id`, with nothing fetched yet.
    pub fn new(run_id: String) -> (r: Self)
        ensures
            r@ == (RunViewModel {
                run_id: run_id@,
                details: None,
                scroll_offset: 0,
                horizontal_scroll: 0,
            }),
    {
        Self { run_id, details: None, scroll_offset: 0, horizontal_scroll: 0 }
    }
}

/// One pipeline, as the service reports it.
#[derive(Debug)]
pub struct Pipeline {
    pub name: String,
    pub is_asset_job: bool,
    pub repository_location: String,
    /// The status of the latest run, when there is one.
    pub last_run_status: Option<String>,
}

/// A pipeline as a mathematical value.
pub struct PipelineModel {
    pub name: Seq<char>,
    pub is_asset_job: bool,
    pub repository_location: Seq<char>,
    pub last_run_status: Option<Seq<char>>,
}

impl View for Pipeline {
    type V = PipelineModel;

    open spec fn view(&self) -> PipelineModel {
        PipelineModel {
            name: self.name@,
            is_asset_job: self.is_asset_job,
            repository_location: self.repository_location@,
            last_run_status: match self.last_run_status {
                Some(status) => Some(status@),
                None => None,
            },
        }
    }
}

impl DeepView for Pipeline {
    type V = PipelineModel;

    open spec fn deep_view(&self) -> PipelineModel {
        self@
    }
}

impl Clone for Pipeline {
    fn clone(&self) -> (r: Self)
        ensures
            r@ == self@,
    {
        Pipeline {
            name: self.name.clone(),
            is_asset_job: self.is_asset_job,
            repository_location: self.repository_location.clone(),
            last_run_status: match &self.last_run_status {
                Some(status) => Some(status.clone()),
                None => None,
            },
        }
    }
}

impl Default for Pipeline {
    fn default() -> (r: Self)
        ensures
            r@ == (PipelineModel {
                name: Seq::empty(),
                is_asset_job: false,
                repository_location: Seq::empty(),
                last_run_status: None,
            }),
    {
        Pipeline {
            name: String::new(),
            is_asset_job: false,
            repository_location: String::new(),
            last_run_status: None,
        }
    }
}

/// Why a request to the service failed.
#[derive(Debug)]
pub enum DomainError {
    /// The service does not know the entity that was asked for.
    NotFound(String),
    /// The service reported a fault of its own.
    RemoteFault(String),
    /// The service could not be reached, or its answer could not be read.
    Transport(String),
}

impl DomainError {
    /// The message that the error carries.
    pub open spec fn text(&self) -> Seq<char> {
        match self {
            DomainError::NotFound(m) => m@,
            DomainError::RemoteFault(m) => m@,
            DomainError::Transport(m) => m@,
        }
    }

    /// The message that the error carries.
    pub fn message(&self) -> (r: String)
        ensures
            r@ == self.text(),
    {
        match self {
            DomainError::NotFound(m) => m.clone(),
            DomainError::RemoteFault(m) => m.clone(),
            DomainError::Transport(m) => m.clone(),
        }
    }
}

} // verus!
