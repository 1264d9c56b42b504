use d9s::app::{App, ConnectionStatus};
use d9s::config::Config;
use d9s::coordinator::InputSnapshot;
use d9s::fetch::{FetchKind, Variables};
use d9s::input::{Key, KeyAction};
use d9s::rows::help_text;
use d9s::screens::{ContextsView, DefaultView, PipelinesView, RunPoller, RunsView};
use d9s::views::{DomainError, Pipeline, Run, RunView, ViewType};

const NOW: i64 = 1_700_000_000;

fn run(id: &str) -> Run {
    Run {
        run_id: id.to_string(),
        job_name: "etl".to_string(),
        status: "SUCCESS".to_string(),
        run_config_yaml: String::new(),
        start_time: None,
        end_time: None,
        duration: "-".to_string(),
    }
}

fn pipeline(name: &str, asset: bool) -> Pipeline {
    Pipeline {
        name: name.to_string(),
        is_asset_job: asset,
        repository_location: "loc".to_string(),
        last_run_status: Some("SUCCESS".to_string()),
    }
}

#[test]
fn the_start_screen_shows_the_help_text() {
    let mut app = App::new(Config::default());
    app.items = vec!["x".to_string()];
    app.selected_index = 4;
    DefaultView::populate_help_text(&mut app);
    assert_eq!(app.items, help_text());
    assert_eq!(app.selected_index, 4);
    app.list_offset = 3;
    DefaultView.restore_state(&mut app);
    assert_eq!((app.selected_index, app.list_offset), (0, 0));
}

#[test]
fn the_list_of_contexts_sets_itself_up() {
    let mut app = App::new(Config::default());
    app.enter_view(ViewType::Contexts, false);
    app.selected_index = 2;
    app.list_offset = 1;
    app.save_view_state();
    app.items.clear();
    app.selected_index = 0;
    ContextsView::new().restore_state(&mut app);
    assert_eq!(app.items.len(), 3);
    assert_eq!((app.selected_index, app.list_offset), (2, 1));
}

#[test]
fn the_list_of_runs_shows_the_runs_held() {
    let mut app = App::new(Config::default());
    let request = app.enter_view(ViewType::Runs, false).unwrap();
    let view = RunsView::new();
    let asked = view.fetch_runs(&app);
    assert_eq!(asked.view, ViewType::Runs);
    assert!(matches!(asked.kind, FetchKind::Runs { limit: 20, .. }));

    view.fetch_initial_data(&mut app, &request, Ok(vec![run("a1"), run("b2")]), NOW);
    assert_eq!(app.items, vec!["HEADER", "SEPARATOR", "a1 etl SUCCESS - -", "b2 etl SUCCESS - -"]);

    app.items.clear();
    view.populate_runs_items(&mut app, NOW);
    assert_eq!(app.items.len(), 4);

    let mut target = vec!["old".to_string()];
    view.populate_runs_items_into(&app, &mut target, NOW);
    assert_eq!(target, app.items);

    view.poll(&mut app, &request, Ok(vec![run("c3")]), NOW);
    assert_eq!(app.items, vec!["HEADER", "SEPARATOR", "c3 etl SUCCESS - -"]);
    assert_eq!(app.connection_status, ConnectionStatus::Connected);
}

#[test]
fn the_list_of_pipelines_shows_the_pipelines_held() {
    let mut app = App::new(Config::default());
    let request = app.enter_view(ViewType::Pipelines, false).unwrap();
    let view = PipelinesView::new();
    let asked = view.fetch_pipelines(&app);
    assert_eq!(asked.view, ViewType::Pipelines);
    assert_eq!(asked.url, app.dagster_url);
    assert!(matches!(asked.kind, FetchKind::Pipelines));

    view.fetch_initial_data(&mut app, &request, Ok(vec![pipeline("etl", false), pipeline("assets", true)]));
    assert_eq!(app.items.len(), 3);
    assert_eq!(app.state.pipelines.len(), 2);

    app.items.clear();
    view.populate_pipelines_items(&mut app);
    assert_eq!(app.items.len(), 3);
    let mut target = Vec::new();
    view.populate_pipelines_items_into(&app, &mut target);
    assert_eq!(target, app.items);

    view.poll(&mut app, &request, Err(DomainError::Transport("x".to_string())));
    assert_eq!(app.items.len(), 3);
    assert_eq!(app.connection_status, ConnectionStatus::Failed("x".to_string()));
}

#[test]
fn the_detail_screen_takes_in_its_run() {
    let mut view = RunView::new("a1".to_string());
    assert_eq!(view.run_id, "a1");
    assert!(view.details.is_none());
    assert_eq!((view.scroll_offset, view.horizontal_scroll), (0, 0));
    view.scroll_offset = 3;
    assert!(view.fetch_details(Ok(run("a1"))).is_ok());
    assert_eq!(view.details.as_ref().unwrap().job_name, "etl");
    assert_eq!(view.scroll_offset, 3);
    let err = view.fetch_details(Err(DomainError::NotFound("gone".to_string()))).unwrap_err();
    assert!(matches!(err, DomainError::NotFound(m) if m == "gone"));
    assert!(view.details.is_some());
}

#[test]
fn the_poll_of_the_detail_screen() {
    let mut app = App::new(Config::default());
    app.enter_view(ViewType::Run("a1".to_string()), false);
    let request = app.poll_request().unwrap();
    RunPoller.poll(&mut app, &request, Ok(run("a1")));
    assert!(app.run_view.as_ref().unwrap().details.is_some());
    assert_eq!(app.connection_status, ConnectionStatus::Connected);
}

#[test]
fn a_snapshot_tells_what_a_key_means() {
    let mut app = App::new(Config::default());
    app.enter_view(ViewType::Pipelines, false);
    app.selected_index = 2;
    let snapshot: InputSnapshot = app.snapshot();
    assert_eq!(snapshot.view, ViewType::Pipelines);
    assert_eq!(snapshot.selected_index, 2);
    assert!(!snapshot.command_mode && !snapshot.search_mode);
    assert!(matches!(snapshot.action(Key::Enter), KeyAction::ViewPipelineRuns));
    assert!(matches!(snapshot.action(Key::Char('/')), KeyAction::ToggleSearchMode));
    app.toggle_command_mode();
    assert!(matches!(app.snapshot().action(Key::Enter), KeyAction::ExecuteCommand));
}

#[test]
fn default_variables_are_empty() {
    let v = Variables::default();
    assert_eq!(v.pipeline_name, "");
    assert_eq!(v.cursor, "");
    assert!(v.run_ids.is_empty());
}

#[test]
fn views_compare_by_kind_and_name() {
    assert_eq!(ViewType::default(), ViewType::Default);
    assert_eq!(ViewType::Run("a".to_string()), ViewType::Run("a".to_string()));
    assert_ne!(ViewType::Run("a".to_string()), ViewType::Run("b".to_string()));
    assert_ne!(ViewType::Run("a".to_string()), ViewType::PipelineRuns("a".to_string()));
    assert_ne!(ViewType::Runs, ViewType::Pipelines);
    let view = ViewType::PipelineRuns("etl".to_string());
    assert_eq!(view.clone(), view);
    assert_eq!(ConnectionStatus::default(), ConnectionStatus::Disconnected);
    assert_ne!(ConnectionStatus::Failed("a".to_string()), ConnectionStatus::Failed("b".to_string()));
    assert_eq!(ConnectionStatus::Failed("a".to_string()).clone(), ConnectionStatus::Failed("a".to_string()));
}
