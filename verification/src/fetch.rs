//! What the dashboard asks its caller to fetch from the service.
//!
//! The dashboard never talks to the service itself. It says what it needs,
//! the caller fetches it with no hold on the dashboard, and hands the
//! outcome back together with the request, so that an outcome that has come
//! too late can be told apart.

use vstd::prelude::*;
use vstd::string::*;
use crate::app::{App, AppModel};
use crate::views::{ViewModel, ViewType};

verus! {

/// The number of runs asked for when the context sets no limit.
pub const DEFAULT_RUNS_LIMIT: usize = 20;

/// What narrows a request for runs.
#[derive(Debug)]
pub struct Variables {
    /// The pipeline whose runs are asked for; all pipelines when empty.
    pub pipeline_name: String,
    /// The place in the run list from which the service is to go on.
    pub cursor: String,
    /// The runs asked for by id; all runs when empty.
    pub run_ids: Vec<String>,
}

/// What narrows a request for runs, as a mathematical value.
pub struct VariablesModel {
    pub pipeline_name: Seq<char>,
    pub cursor: Seq<char>,
    pub run_ids: Seq<Seq<char>>,
}

impl View for Variables {
    type V = VariablesModel;

    open spec fn view(&self) -> VariablesModel {
        VariablesModel {
            pipeline_name: self.pipeline_name@,
            cursor: self.cursor@,
            run_ids: self.run_ids.deep_view(),
        }
    }
}

impl Default for Variables {
    fn default() -> (r: Self)
        ensures
            r@ == (VariablesModel {
                pipeline_name: Seq::empty(),
                cursor: Seq::empty(),
                run_ids: Seq::empty(),
            }),
    {
        let r = Variables {
            pipeline_name: String::new(),
            cursor: String::new(),
            run_ids: Vec::new(),
        };
        assert(r.run_ids.deep_view() =~= Seq::empty());
        r
    }
}

/// What is to be fetched.
#[derive(Debug)]
pub enum FetchKind {
    /// A page of at most `limit` runs.
    Runs { variables: Variables, limit: usize },
    /// One run.
    Run { run_id: String },
    /// The pipelines.
    Pipelines,
}

/// What is to be fetched, as a mathematical value.
pub enum FetchKindModel {
    Runs { variables: VariablesModel, limit: usize },
    Run { run_id: Seq<char> },
    Pipelines,
}

impl View for FetchKind {
    type V = FetchKindModel;

    open spec fn view(&self) -> FetchKindModel {
        match self {
            FetchKind::Runs { variables, limit } => FetchKindModel::Runs {
                variables: variables@,
                limit: *limit,
            },
            FetchKind::Run { run_id } => FetchKindModel::Run { run_id: run_id@ },
            FetchKind::Pipelines => FetchKindModel::Pipelines,
        }
    }
}

/// A request to the service, with the screen that was in view when it was
/// made.
#[derive(Debug)]
pub struct FetchRequest {
    pub view: ViewType,
    /// The endpoint to ask.
    pub url: String,
    pub kind: FetchKind,
}

/// A request as a mathematical value.
pub struct FetchRequestModel {
    pub view: ViewModel,
    pub url: Seq<char>,
    pub kind: FetchKindModel,
}

impl View for FetchRequest {
    type V = FetchRequestModel;

    open spec fn view(&self) -> FetchRequestModel {
        FetchRequestModel { view: self.view@, url: self.url@, kind: self.kind@ }
    }
}

/// An optional request as a mathematical value.
pub open spec fn request_model(request: Option<FetchRequest>) -> Option<FetchRequestModel> {
    match request {
        Some(r) => Some(r@),
        None => None,
    }
}

impl AppModel {
    /// The request for a page of runs, as the screen in view narrows it: to
    /// the pipeline of the screen, or else to the pipeline that the runs
    /// are narrowed to, if any.
    pub open spec fn runs_request(self) -> FetchRequestModel {
        FetchRequestModel {
            view: self.view,
            url: self.dagster_url,
            kind: FetchKindModel::Runs {
                variables: VariablesModel {
                    pipeline_name: match self.view {
                        ViewModel::PipelineRuns(name) => name,
                        _ => match self.state.selected_pipeline {
                            Some(name) => name,
                            None => Seq::empty(),
                        },
                    },
                    cursor: self.state.cursor,
                    run_ids: Seq::empty(),
                },
                limit: match self.config.current_context().runs_limit {
                    Some(limit) => limit,
                    None => DEFAULT_RUNS_LIMIT,
                },
            },
        }
    }

    /// What a screen fetches when it comes into view: a run list its runs,
    /// the pipeline list the pipelines, any other screen nothing.
    pub open spec fn load_request(self) -> Option<FetchRequestModel> {
        match self.view {
            ViewModel::Runs | ViewModel::PipelineRuns(_) => Some(self.runs_request()),
            ViewModel::Pipelines => Some(
                FetchRequestModel {
                    view: self.view,
                    url: self.dagster_url,
                    kind: FetchKindModel::Pipelines,
                },
            ),
            _ => None,
        }
    }

    /// What the screen in view fetches at each tick of the poll timer: what
    /// it fetches when it comes into view, and the detail screen its run.
    pub open spec fn poll_request(self) -> Option<FetchRequestModel> {
        match self.view {
            ViewModel::Run(id) => Some(
                FetchRequestModel {
                    view: self.view,
                    url: self.dagster_url,
                    kind: FetchKindModel::Run { run_id: id },
                },
            ),
            _ => self.load_request(),
        }
    }
}

impl App {
    /// The request for a page of runs, as the screen in view narrows it.
    pub fn runs_request(&self) -> (r: FetchRequest)
        ensures
            r@ == self@.runs_request(),
    {
        let pipeline_name = match &self.view {
            ViewType::PipelineRuns(name) => name.clone(),
            _ => match &self.state.selected_pipeline {
                Some(name) => name.clone(),
                None => String::new(),
            },
        };
        let limit = match self.config.get_current_context().runs_limit {
            Some(limit) => limit,
            None => DEFAULT_RUNS_LIMIT,
        };
        let variables = Variables {
            pipeline_name,
            cursor: self.state.cursor.clone(),
            run_ids: Vec::new(),
        };
        assert(variables.run_ids.deep_view() =~= Seq::empty());
        FetchRequest {
            view: self.view.clone(),
            url: self.dagster_url.clone(),
            kind: FetchKind::Runs { variables, limit },
        }
    }

    /// What the screen in view fetches when it comes into view.
    pub fn load_request(&self) -> (r: Option<FetchRequest>)
        ensures
            request_model(r) == self@.load_request(),
    {
        match &self.view {
            ViewType::Runs | ViewType::PipelineRuns(_) => Some(self.runs_request()),
            ViewType::Pipelines => Some(
                FetchRequest {
                    view: self.view.clone(),
                    url: self.dagster_url.clone(),
                    kind: FetchKind::Pipelines,
                },
            ),
            _ => None,
        }
    }

    /// What the screen in view fetches at each tick of the poll timer.
    pub fn poll_request(&self) -> (r: Option<FetchRequest>)
        ensures
            request_model(r) == self@.poll_request(),
    {
        match &self.view {
            ViewType::Run(id) => Some(
                FetchRequest {
                    view: self.view.clone(),
                    url: self.dagster_url.clone(),
                    kind: FetchKind::Run { run_id: id.clone() },
                },
            ),
            _ => self.load_request(),
        }
    }
}

} // verus!
