use d9s::app::{App, ConnectionStatus};
use d9s::config::Config;
use d9s::coordinator::FetchOutcome;
use d9s::fetch::{FetchKind, FetchRequest};
use d9s::views::{DomainError, Pipeline, Run, ViewType};

const NOW: i64 = 1_700_000_000;

fn rows(items: &[&str]) -> Vec<String> {
    items.iter().map(|s| s.to_string()).collect()
}

fn run(id: &str, job: &str, status: &str) -> Run {
    Run {
        run_id: id.to_string(),
        job_name: job.to_string(),
        status: status.to_string(),
        run_config_yaml: "ops: {}".to_string(),
        start_time: Some(NOW - 30),
        end_time: Some(NOW - 10),
        duration: "20.0s".to_string(),
    }
}

fn pipeline(name: &str, status: Option<&str>) -> Pipeline {
    Pipeline {
        name: name.to_string(),
        is_asset_job: false,
        repository_location: "loc".to_string(),
        last_run_status: status.map(|s| s.to_string()),
    }
}

fn on_runs() -> (App, FetchRequest) {
    let mut app = App::new(Config::default());
    let request = app.enter_view(ViewType::Runs, true).unwrap();
    (app, request)
}

fn on_pipelines() -> (App, FetchRequest) {
    let mut app = App::new(Config::default());
    let request = app.enter_view(ViewType::Pipelines, true).unwrap();
    (app, request)
}

#[test]
fn loaded_runs_replace_the_loading_row() {
    let (mut app, request) = on_runs();
    app.load_runs(&request, Ok(vec![run("a1", "etl", "SUCCESS"), run("b2", "ml", "FAILURE")]), NOW);
    assert_eq!(
        app.items,
        rows(&[
            "HEADER",
            "SEPARATOR",
            "a1 etl SUCCESS 20.0s 30 second(s) ago",
            "b2 ml FAILURE 20.0s 30 second(s) ago",
        ])
    );
    assert_eq!(app.state.runs.len(), 2);
    assert_eq!(app.state.runs[1].run_id, "b2");
    assert_eq!(app.connection_status, ConnectionStatus::Connected);
    assert_eq!((app.selected_index, app.list_offset), (2, 0));
}

#[test]
fn a_load_without_runs_shows_an_empty_list() {
    let (mut app, request) = on_runs();
    app.load_runs(&request, Ok(Vec::new()), NOW);
    assert_eq!(app.items, rows(&["HEADER", "SEPARATOR"]));
}

#[test]
fn a_failed_load_keeps_the_loading_row_and_shows_in_the_status() {
    let (mut app, request) = on_runs();
    app.load_runs(&request, Err(DomainError::Transport("connection refused".to_string())), NOW);
    assert_eq!(app.items, rows(&["HEADER", "SEPARATOR", "Loading runs..."]));
    assert_eq!(
        app.connection_status,
        ConnectionStatus::Failed("Failed to load data: connection refused".to_string())
    );
    assert_eq!(app.view, ViewType::Runs);
}

#[test]
fn polled_runs_are_merged() {
    let (mut app, request) = on_runs();
    app.load_runs(&request, Ok(vec![run("a1", "etl", "STARTED")]), NOW);
    let poll = app.poll_request().unwrap();
    app.merge_runs(&poll, Ok(vec![run("a1", "etl", "SUCCESS"), run("c3", "x", "QUEUED")]), NOW + 3);
    assert_eq!(
        app.items,
        rows(&[
            "HEADER",
            "SEPARATOR",
            "a1 etl SUCCESS 20.0s 33 second(s) ago",
            "c3 x QUEUED 20.0s 33 second(s) ago",
        ])
    );
    assert_eq!(app.connection_status, ConnectionStatus::Connected);
    assert_eq!(app.state.runs.len(), 2);
}

#[test]
fn a_poll_without_runs_keeps_the_rows() {
    let (mut app, request) = on_runs();
    app.load_runs(&request, Ok(vec![run("a1", "etl", "STARTED")]), NOW);
    app.merge_runs(&request, Err(DomainError::Transport("down".to_string())), NOW);
    let items = app.items.clone();
    app.selected_index = 9;
    app.merge_runs(&request, Ok(Vec::new()), NOW);
    assert_eq!(app.items, items);
    assert_eq!(app.state.runs.len(), 1);
    assert_eq!(app.selected_index, 9);
    // the service answered: the failure is over
    assert_eq!(app.connection_status, ConnectionStatus::Connected);
}

#[test]
fn a_load_that_goes_well_ends_a_failure() {
    let (mut app, request) = on_runs();
    app.load_runs(&request, Err(DomainError::Transport("down".to_string())), NOW);
    assert!(matches!(app.connection_status, ConnectionStatus::Failed(_)));
    app.load_runs(&request, Ok(Vec::new()), NOW);
    assert_eq!(app.connection_status, ConnectionStatus::Connected);

    let (mut app, request) = on_pipelines();
    app.load_pipelines(&request, Err(DomainError::Transport("down".to_string())));
    assert!(matches!(app.connection_status, ConnectionStatus::Failed(_)));
    app.load_pipelines(&request, Ok(Vec::new()));
    assert_eq!(app.connection_status, ConnectionStatus::Connected);
}

#[test]
fn a_failed_poll_keeps_the_rows_and_shows_in_the_status() {
    let (mut app, request) = on_runs();
    app.load_runs(&request, Ok(vec![run("a1", "etl", "STARTED")]), NOW);
    let items = app.items.clone();
    app.merge_runs(&request, Err(DomainError::RemoteFault("boom".to_string())), NOW);
    assert_eq!(app.items, items);
    assert_eq!(app.state.runs.len(), 1);
    assert_eq!(app.connection_status, ConnectionStatus::Failed("boom".to_string()));
}

#[test]
fn runs_that_arrive_after_the_screen_changed_are_dropped() {
    let (mut app, request) = on_runs();
    app.load_runs(&request, Ok(vec![run("old", "etl", "STARTED")]), NOW);
    let poll = app.poll_request().unwrap();
    // the screen changes while the poll is under way
    let load = app.enter_view(ViewType::Pipelines, false).unwrap();
    app.load_pipelines(&load, Ok(vec![pipeline("etl", Some("SUCCESS"))]));
    let items = app.items.clone();
    let status = app.connection_status.clone();

    app.merge_runs(&poll, Ok(vec![run("new", "etl", "SUCCESS")]), NOW);
    assert_eq!(app.view, ViewType::Pipelines);
    assert_eq!(app.items, items);
    assert_eq!(app.state.runs.len(), 1);
    assert_eq!(app.state.runs[0].run_id, "old");
    assert_eq!(app.connection_status, status);

    app.merge_runs(&poll, Err(DomainError::Transport("late".to_string())), NOW);
    assert_eq!(app.items, items);
    assert_eq!(app.connection_status, status);

    app.merge_poll(&poll, FetchOutcome::Runs(Ok(vec![run("new", "etl", "SUCCESS")])), NOW);
    assert_eq!(app.items, items);
    assert_eq!(app.state.runs[0].run_id, "old");
}

#[test]
fn runs_of_one_pipeline_are_not_merged_into_another() {
    let mut app = App::new(Config::default());
    let a = app.enter_view(ViewType::PipelineRuns("a".to_string()), false).unwrap();
    let b = app.enter_view(ViewType::PipelineRuns("b".to_string()), false).unwrap();
    app.load_runs(&a, Ok(vec![run("ra", "a", "SUCCESS")]), NOW);
    assert_eq!(app.items, rows(&["HEADER", "SEPARATOR", "Loading runs..."]));
    app.load_runs(&b, Ok(vec![run("rb", "b", "SUCCESS")]), NOW);
    assert_eq!(app.items.len(), 3);
    assert!(app.items[2].starts_with("rb b"));
}

#[test]
fn a_committed_filter_stays_in_force_when_runs_are_merged() {
    let (mut app, request) = on_runs();
    app.load_runs(
        &request,
        Ok(vec![run("a1", "etl", "SUCCESS"), run("b2", "ml", "SUCCESS"), run("c3", "etl", "FAILURE")]),
        NOW,
    );
    app.enter_search_mode();
    app.update_search('e');
    app.update_search('t');
    app.update_search('l');
    app.commit_search();
    assert_eq!(app.items.len(), 4); // two of three rows

    let poll = app.poll_request().unwrap();
    app.merge_runs(
        &poll,
        Ok(vec![
            run("a1", "etl", "SUCCESS"),
            run("b2", "ml", "SUCCESS"),
            run("d4", "etl", "QUEUED"),
            run("e5", "report", "QUEUED"),
            run("f6", "etl_nightly", "STARTED"),
        ]),
        NOW,
    );
    assert_eq!(app.unfiltered_items.len(), 7);
    assert_eq!(
        app.items,
        rows(&[
            "HEADER",
            "SEPARATOR",
            "a1 etl SUCCESS 20.0s 30 second(s) ago",
            "d4 etl QUEUED 20.0s 30 second(s) ago",
            "f6 etl_nightly STARTED 20.0s 30 second(s) ago",
        ])
    );
    assert!(app.has_committed_filter);
    assert_eq!(app.search_input, "etl");
    assert_eq!(app.state.runs.len(), 5);
}

#[test]
fn a_query_being_typed_stays_in_force_when_runs_are_merged() {
    let (mut app, request) = on_runs();
    app.load_runs(&request, Ok(vec![run("a1", "etl", "SUCCESS"), run("b2", "ml", "SUCCESS")]), NOW);
    app.enter_search_mode();
    app.update_search('m');
    app.update_search('l');
    assert_eq!(app.items.len(), 3);
    app.selected_index = 2;
    app.merge_runs(&request, Ok(vec![run("z9", "zzz", "QUEUED")]), NOW);
    assert_eq!(app.items, rows(&["HEADER", "SEPARATOR"]));
    assert_eq!(app.unfiltered_items.len(), 3);
    assert_eq!((app.selected_index, app.list_offset), (1, 0));
    assert!(app.search_mode);
}

#[test]
fn pipelines_are_loaded_and_merged() {
    let (mut app, request) = on_pipelines();
    app.load_pipelines(&request, Ok(vec![pipeline("etl", Some("SUCCESS")), pipeline("ml", None)]));
    assert_eq!(app.items.len(), 4);
    assert_eq!(app.items[2], format!("{:<50} {:<33} {}", "etl", "loc", "SUCCESS"));
    assert_eq!(app.items[3], format!("{:<50} {:<33} {}", "ml", "loc", "None"));
    assert_eq!(app.connection_status, ConnectionStatus::Connected);

    app.merge_pipelines(&request, Ok(vec![pipeline("etl", Some("FAILURE"))]));
    assert_eq!(app.items.len(), 3);
    assert!(app.items[2].ends_with("FAILURE"));
    assert_eq!(app.connection_status, ConnectionStatus::Connected);
    assert_eq!(app.state.pipelines.len(), 1);

    app.merge_pipelines(&request, Ok(Vec::new()));
    assert_eq!(app.items.len(), 2);
}

#[test]
fn a_failed_pipeline_poll_keeps_the_rows() {
    let (mut app, request) = on_pipelines();
    app.load_pipelines(&request, Ok(vec![pipeline("etl", None)]));
    let items = app.items.clone();
    app.merge_pipelines(&request, Err(DomainError::Transport("down".to_string())));
    assert_eq!(app.items, items);
    assert_eq!(app.state.pipelines.len(), 1);
    assert_eq!(app.connection_status, ConnectionStatus::Failed("down".to_string()));

    let (mut app, request) = on_pipelines();
    app.load_pipelines(&request, Err(DomainError::Transport("down".to_string())));
    assert_eq!(app.items[2], "Loading pipelines...");
    assert_eq!(
        app.connection_status,
        ConnectionStatus::Failed("Failed to load data: down".to_string())
    );
}

#[test]
fn a_filter_on_pipelines_stays_in_force() {
    let (mut app, request) = on_pipelines();
    app.load_pipelines(&request, Ok(vec![pipeline("etl", None), pipeline("ml", None)]));
    app.enter_search_mode();
    app.update_search('m');
    app.commit_search();
    assert_eq!(app.items.len(), 3);
    app.merge_pipelines(
        &request,
        Ok(vec![pipeline("etl", None), pipeline("mail", None), pipeline("model", None)]),
    );
    assert_eq!(app.unfiltered_items.len(), 5);
    assert_eq!(app.items.len(), 4);
    assert!(app.items[2].starts_with("mail"));
    assert!(app.items[3].starts_with("model"));
}

#[test]
fn pipelines_that_arrive_late_are_dropped() {
    let (mut app, request) = on_pipelines();
    app.enter_view(ViewType::Contexts, false);
    let items = app.items.clone();
    app.merge_pipelines(&request, Ok(vec![pipeline("etl", None)]));
    app.load_pipelines(&request, Ok(vec![pipeline("etl", None)]));
    assert_eq!(app.items, items);
    assert!(app.state.pipelines.is_empty());
}

fn on_run(id: &str) -> (App, FetchRequest) {
    let mut app = App::new(Config::default());
    app.enter_view(ViewType::Run(id.to_string()), false);
    let request = app.poll_request().unwrap();
    (app, request)
}

#[test]
fn the_run_in_view_is_refreshed() {
    let (mut app, request) = on_run("a1");
    app.merge_run(&request, Ok(run("a1", "etl", "SUCCESS")));
    let details = app.run_view.as_ref().unwrap().details.as_ref().unwrap();
    assert_eq!(details.status, "SUCCESS");
    assert_eq!(details.run_config_yaml, "ops: {}");
    assert_eq!(app.connection_status, ConnectionStatus::Connected);
}

#[test]
fn a_failed_run_poll_keeps_the_run() {
    let (mut app, request) = on_run("a1");
    app.merge_run(&request, Ok(run("a1", "etl", "STARTED")));
    app.merge_run(&request, Err(DomainError::NotFound("Run a1 could not be found.".to_string())));
    assert_eq!(app.run_view.as_ref().unwrap().details.as_ref().unwrap().status, "STARTED");
    assert_eq!(
        app.connection_status,
        ConnectionStatus::Failed("Run a1 could not be found.".to_string())
    );
}

#[test]
fn a_run_that_arrives_late_is_dropped() {
    let (mut app, request) = on_run("a1");
    app.navigate_back();
    app.merge_run(&request, Ok(run("a1", "etl", "SUCCESS")));
    assert!(app.run_view.is_none());
    assert_eq!(app.connection_status, ConnectionStatus::Disconnected);

    let (mut app, request) = on_run("a1");
    app.enter_view(ViewType::Run("b2".to_string()), false);
    app.merge_run(&request, Ok(run("a1", "etl", "SUCCESS")));
    assert_eq!(app.run_view.as_ref().unwrap().run_id, "b2");
    assert!(app.run_view.as_ref().unwrap().details.is_none());
}

#[test]
fn a_poll_without_a_detail_screen_only_shows_in_the_status() {
    let (mut app, request) = on_run("a1");
    app.run_view = None;
    app.merge_run(&request, Ok(run("a1", "etl", "SUCCESS")));
    assert!(app.run_view.is_none());
    assert_eq!(app.connection_status, ConnectionStatus::Connected);
}

#[test]
fn opening_a_run() {
    let (mut app, request) = on_runs();
    app.load_runs(&request, Ok(vec![run("a1", "etl", "SUCCESS")]), NOW);
    let open = FetchRequest {
        view: ViewType::Runs,
        url: app.dagster_url.clone(),
        kind: FetchKind::Run { run_id: "a1".to_string() },
    };
    app.open_run(&open, Ok(run("a1", "etl", "SUCCESS")));
    assert_eq!(app.view, ViewType::Run("a1".to_string()));
    assert_eq!(app.view_history, vec![ViewType::Default, ViewType::Runs]);
    let run_view = app.run_view.as_ref().unwrap();
    assert_eq!(run_view.run_id, "a1");
    assert_eq!(run_view.details.as_ref().unwrap().job_name, "etl");
    assert_eq!((run_view.scroll_offset, run_view.horizontal_scroll), (0, 0));
    assert_eq!(app.connection_status, ConnectionStatus::Connected);
}

#[test]
fn opening_a_run_that_cannot_be_fetched() {
    let (mut app, _) = on_runs();
    let open = FetchRequest {
        view: ViewType::Runs,
        url: app.dagster_url.clone(),
        kind: FetchKind::Run { run_id: "a1".to_string() },
    };
    app.open_run(&open, Err(DomainError::NotFound("no such run".to_string())));
    assert_eq!(app.view, ViewType::Run("a1".to_string()));
    assert!(app.run_view.as_ref().unwrap().details.is_none());
    assert_eq!(app.connection_status, ConnectionStatus::Failed("no such run".to_string()));
}

#[test]
fn a_run_that_was_picked_on_another_screen_is_not_opened() {
    let (mut app, _) = on_runs();
    let open = FetchRequest {
        view: ViewType::Runs,
        url: app.dagster_url.clone(),
        kind: FetchKind::Run { run_id: "a1".to_string() },
    };
    app.enter_view(ViewType::Pipelines, false);
    app.open_run(&open, Ok(run("a1", "etl", "SUCCESS")));
    assert_eq!(app.view, ViewType::Pipelines);
    assert!(app.run_view.is_none());
}

#[test]
fn outcomes_go_to_the_screen_they_were_asked_for() {
    let (mut app, request) = on_runs();
    app.finish_load(&request, FetchOutcome::Runs(Ok(vec![run("a1", "etl", "SUCCESS")])), NOW);
    assert_eq!(app.items.len(), 3);
    // an outcome of the wrong kind is passed over
    app.finish_load(&request, FetchOutcome::Pipelines(Ok(vec![pipeline("etl", None)])), NOW);
    app.merge_poll(&request, FetchOutcome::Run(Ok(run("zz", "x", "y"))), NOW);
    assert_eq!(app.items.len(), 3);
    assert!(app.state.pipelines.is_empty());
    app.merge_poll(&request, FetchOutcome::Runs(Ok(vec![run("a", "b", "c"), run("d", "e", "f")])), NOW);
    assert_eq!(app.items.len(), 4);

    let (mut app, request) = on_pipelines();
    app.finish_load(&request, FetchOutcome::Pipelines(Ok(vec![pipeline("etl", None)])), NOW);
    assert_eq!(app.items.len(), 3);
    app.merge_poll(&request, FetchOutcome::Pipelines(Err(DomainError::Transport("x".to_string()))), NOW);
    assert_eq!(app.connection_status, ConnectionStatus::Failed("x".to_string()));

    let (mut app, request) = on_run("a1");
    app.merge_poll(&request, FetchOutcome::Run(Ok(run("a1", "etl", "SUCCESS"))), NOW);
    assert!(app.run_view.as_ref().unwrap().details.is_some());
}

#[test]
fn outcomes_that_cannot_be_shown_are_told_apart() {
    let mut odd = pipeline("etl", None);
    odd.name = format!("{}é{}", "a".repeat(46), "b".repeat(10));
    assert!(!FetchOutcome::Pipelines(Ok(vec![pipeline("ok", None), odd.clone()])).can_show());
    odd.is_asset_job = true;
    assert!(FetchOutcome::Pipelines(Ok(vec![pipeline("ok", None), odd])).can_show());
    assert!(FetchOutcome::Pipelines(Ok(Vec::new())).can_show());
    assert!(FetchOutcome::Pipelines(Err(DomainError::Transport("x".to_string()))).can_show());
    assert!(FetchOutcome::Runs(Ok(vec![run("a", "b", "c")])).can_show());
    assert!(FetchOutcome::Run(Ok(run("a", "b", "c"))).can_show());
}

#[test]
fn errors_carry_their_message() {
    assert_eq!(DomainError::NotFound("a".to_string()).message(), "a");
    assert_eq!(DomainError::RemoteFault("b".to_string()).message(), "b");
    assert_eq!(DomainError::Transport("c".to_string()).message(), "c");
}

#[test]
fn a_restored_cursor_is_brought_back_to_the_runs_that_arrive() {
    let mut app = App::new(Config::default());
    app.enter_view(ViewType::Runs, false);
    app.selected_index = 9;
    app.list_offset = 6;
    app.enter_view(ViewType::Contexts, false);
    let request = app.enter_view(ViewType::Runs, false).unwrap();
    assert_eq!((app.selected_index, app.list_offset), (9, 6));
    // the list has got shorter: two runs, rows 2 and 3
    app.load_runs(&request, Ok(vec![run("a1", "etl", "SUCCESS"), run("b2", "ml", "SUCCESS")]), NOW);
    assert_eq!(app.items.len(), 4);
    assert_eq!((app.selected_index, app.list_offset), (3, 3));
}

#[test]
fn a_restored_cursor_that_fits_is_kept() {
    let mut app = App::new(Config::default());
    app.enter_view(ViewType::Runs, false);
    app.selected_index = 3;
    app.list_offset = 1;
    app.enter_view(ViewType::Contexts, false);
    let (_, request) = app.navigate_back();
    app.load_runs(
        &request.unwrap(),
        Ok(vec![run("a1", "etl", "SUCCESS"), run("b2", "ml", "SUCCESS"), run("c3", "x", "QUEUED")]),
        NOW,
    );
    assert_eq!((app.selected_index, app.list_offset), (3, 1));
}

#[test]
fn a_list_without_runs_leaves_the_cursor() {
    let mut app = App::new(Config::default());
    app.enter_view(ViewType::Runs, false);
    app.selected_index = 7;
    app.list_offset = 2;
    app.enter_view(ViewType::Contexts, false);
    let request = app.enter_view(ViewType::Runs, false).unwrap();
    app.load_runs(&request, Ok(Vec::new()), NOW);
    assert_eq!(app.items.len(), 2);
    assert_eq!((app.selected_index, app.list_offset), (7, 2));
}

#[test]
fn a_restored_cursor_is_brought_back_to_the_pipelines_that_arrive() {
    let mut app = App::new(Config::default());
    app.enter_view(ViewType::Pipelines, false);
    app.selected_index = 40;
    app.list_offset = 35;
    app.enter_view(ViewType::Contexts, false);
    let request = app.enter_view(ViewType::Pipelines, false).unwrap();
    assert_eq!((app.selected_index, app.list_offset), (40, 35));
    app.load_pipelines(&request, Ok(vec![pipeline("etl", None)]));
    assert_eq!((app.selected_index, app.list_offset), (2, 2));
}

#[test]
fn a_poll_that_brings_fewer_rows_brings_the_cursor_back() {
    let (mut app, request) = on_runs();
    app.load_runs(
        &request,
        Ok(vec![run("a", "j", "S"), run("b", "j", "S"), run("c", "j", "S"), run("d", "j", "S")]),
        NOW,
    );
    app.selected_index = 5;
    app.list_offset = 4;
    app.merge_runs(&request, Ok(vec![run("a", "j", "S"), run("b", "j", "S")]), NOW);
    assert_eq!(app.items.len(), 4);
    assert_eq!((app.selected_index, app.list_offset), (3, 3));
    // a cursor that fits stays
    app.selected_index = 2;
    app.list_offset = 0;
    app.merge_runs(&request, Ok(vec![run("a", "j", "S")]), NOW);
    assert_eq!((app.selected_index, app.list_offset), (2, 0));

    let (mut app, request) = on_pipelines();
    app.load_pipelines(&request, Ok(vec![pipeline("a", None), pipeline("b", None), pipeline("c", None)]));
    app.selected_index = 4;
    app.list_offset = 3;
    app.merge_pipelines(&request, Ok(vec![pipeline("a", None)]));
    assert_eq!((app.selected_index, app.list_offset), (2, 2));
}

#[test]
fn bringing_the_cursor_back() {
    let (mut app, _) = on_runs();
    app.items = rows(&["HEADER", "SEPARATOR", "a", "b", "c"]);
    for (before, after) in [
        ((2, 0), (2, 0)),
        ((4, 4), (4, 4)),
        ((5, 0), (4, 0)),
        ((9, 7), (4, 4)),
        ((3, 4), (3, 3)),
        ((0, 0), (0, 0)),
        ((usize::MAX, usize::MAX), (4, 4)),
    ] {
        app.selected_index = before.0;
        app.list_offset = before.1;
        app.clamp_cursor();
        assert_eq!((app.selected_index, app.list_offset), after);
    }
    app.items = rows(&["HEADER", "SEPARATOR"]);
    app.selected_index = 9;
    app.list_offset = 9;
    app.clamp_cursor();
    assert_eq!((app.selected_index, app.list_offset), (9, 9));
}

#[test]
fn an_outcome_that_cannot_be_shown_is_not_merged() {
    let mut odd = pipeline("etl", None);
    odd.name = format!("{}é{}", "a".repeat(46), "b".repeat(10));
    let (mut app, request) = on_pipelines();
    assert!(app.try_finish_load(&request, FetchOutcome::Pipelines(Ok(vec![pipeline("ok", None)])), NOW));
    assert_eq!(app.items.len(), 3);
    let items = app.items.clone();
    assert!(!app.try_merge_poll(&request, FetchOutcome::Pipelines(Ok(vec![odd.clone()])), NOW));
    assert!(!app.try_finish_load(&request, FetchOutcome::Pipelines(Ok(vec![odd])), NOW));
    assert_eq!(app.items, items);
    assert_eq!(app.state.pipelines.len(), 1);
    assert_eq!(app.connection_status, ConnectionStatus::Connected);
    app.connection_status = ConnectionStatus::Disconnected;
    assert!(!app.try_merge_poll(
        &request,
        FetchOutcome::Pipelines(Ok(vec![{
            let mut p = pipeline("x", None);
            p.repository_location = format!("{}é", "l".repeat(29));
            p.name = "n".repeat(51);
            p.repository_location.push_str("llllll");
            p
        }])),
        NOW
    ));
    assert_eq!(app.connection_status, ConnectionStatus::Disconnected);
    assert!(app.try_merge_poll(&request, FetchOutcome::Pipelines(Ok(vec![pipeline("a", None), pipeline("b", None)])), NOW));
    assert_eq!(app.items.len(), 4);
    assert_eq!(app.connection_status, ConnectionStatus::Connected);
}

#[test]
fn a_filter_on_pipelines_is_applied_again_to_what_the_poll_brings() {
    let (mut app, request) = on_pipelines();
    app.load_pipelines(&request, Ok(vec![pipeline("mail", None), pipeline("model", None)]));
    app.enter_search_mode();
    app.update_search('m');
    app.commit_search();
    // every row matches the query
    assert_eq!(app.items, app.unfiltered_items);
    let poll = app.poll_request().unwrap();
    assert!(app.try_merge_poll(
        &poll,
        FetchOutcome::Pipelines(Ok(vec![pipeline("mail", None), pipeline("etl", None), pipeline("loom", None)])),
        NOW
    ));
    assert_eq!(app.unfiltered_items.len(), 5);
    assert_eq!(app.items.len(), 4);
    assert!(app.items[2].starts_with("mail"));
    assert!(app.items[3].starts_with("loom"));
    assert!(app.has_committed_filter);
    assert_eq!(app.search_input, "m");
}
