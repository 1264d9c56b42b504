use d9s::input::{handle_key, Key, KeyAction};
use d9s::views::ViewType;

fn normal(key: Key, view: &ViewType, selected: usize) -> KeyAction {
    handle_key(key, view, false, false, selected)
}

fn views() -> Vec<ViewType> {
    vec![
        ViewType::Default,
        ViewType::Runs,
        ViewType::Run("abc".to_string()),
        ViewType::Contexts,
        ViewType::Pipelines,
        ViewType::PipelineRuns("etl".to_string()),
    ]
}

#[test]
fn command_line_takes_the_keys_first() {
    for view in views() {
        for search in [false, true] {
            assert!(matches!(handle_key(Key::Esc, &view, true, search, 2), KeyAction::ToggleCommandMode));
            assert!(matches!(handle_key(Key::Char('q'), &view, true, search, 2), KeyAction::UpdateCommandInput('q')));
            assert!(matches!(handle_key(Key::Char('/'), &view, true, search, 2), KeyAction::UpdateCommandInput('/')));
            assert!(matches!(handle_key(Key::Backspace, &view, true, search, 2), KeyAction::ClearCommandInput));
            assert!(matches!(handle_key(Key::Enter, &view, true, search, 2), KeyAction::ExecuteCommand));
            assert!(matches!(handle_key(Key::Down, &view, true, search, 2), KeyAction::Ignored));
            assert!(matches!(handle_key(Key::Other, &view, true, search, 2), KeyAction::Ignored));
        }
    }
}

#[test]
fn search_line_takes_the_keys_next() {
    for view in views() {
        assert!(matches!(handle_key(Key::Esc, &view, false, true, 2), KeyAction::CancelSearch));
        assert!(matches!(handle_key(Key::Char(':'), &view, false, true, 2), KeyAction::UpdateSearchInput(':')));
        assert!(matches!(handle_key(Key::Backspace, &view, false, true, 2), KeyAction::ClearSearchInput));
        assert!(matches!(handle_key(Key::Enter, &view, false, true, 2), KeyAction::CommitSearch));
        assert!(matches!(handle_key(Key::Up, &view, false, true, 2), KeyAction::Ignored));
    }
}

#[test]
fn keys_that_mean_the_same_everywhere() {
    for view in views() {
        assert!(matches!(normal(Key::Char('q'), &view, 0), KeyAction::Quit));
        assert!(matches!(normal(Key::Char(':'), &view, 0), KeyAction::ToggleCommandMode));
        assert!(matches!(normal(Key::Esc, &view, 0), KeyAction::NavigateBack));
        assert!(matches!(normal(Key::Other, &view, 5), KeyAction::Ignored));
        assert!(matches!(normal(Key::Backspace, &view, 5), KeyAction::Ignored));
    }
}

#[test]
fn search_opens_on_lists_of_runs_and_pipelines_only() {
    assert!(matches!(normal(Key::Char('/'), &ViewType::Runs, 2), KeyAction::ToggleSearchMode));
    assert!(matches!(normal(Key::Char('/'), &ViewType::Pipelines, 2), KeyAction::ToggleSearchMode));
    assert!(matches!(
        normal(Key::Char('/'), &ViewType::PipelineRuns("p".to_string()), 2),
        KeyAction::ToggleSearchMode
    ));
    assert!(matches!(normal(Key::Char('/'), &ViewType::Default, 2), KeyAction::Ignored));
    assert!(matches!(normal(Key::Char('/'), &ViewType::Contexts, 2), KeyAction::Ignored));
    assert!(matches!(normal(Key::Char('/'), &ViewType::Run("r".to_string()), 2), KeyAction::Ignored));
}

#[test]
fn movement_keys_move_the_cursor_on_lists() {
    for view in [ViewType::Runs, ViewType::Contexts, ViewType::Pipelines, ViewType::PipelineRuns("p".to_string())] {
        assert!(matches!(normal(Key::Char('j'), &view, 2), KeyAction::SelectNext(0)));
        assert!(matches!(normal(Key::Down, &view, 2), KeyAction::SelectNext(0)));
        assert!(matches!(normal(Key::Char('k'), &view, 2), KeyAction::SelectPrevious(0)));
        assert!(matches!(normal(Key::Up, &view, 2), KeyAction::SelectPrevious(0)));
        assert!(matches!(normal(Key::Left, &view, 2), KeyAction::Ignored));
        assert!(matches!(normal(Key::Char('h'), &view, 2), KeyAction::Ignored));
    }
}

#[test]
fn movement_keys_scroll_the_detail_screen() {
    let view = ViewType::Run("abc".to_string());
    assert!(matches!(normal(Key::Char('j'), &view, 0), KeyAction::ScrollDown));
    assert!(matches!(normal(Key::Down, &view, 0), KeyAction::ScrollDown));
    assert!(matches!(normal(Key::Char('k'), &view, 0), KeyAction::ScrollUp));
    assert!(matches!(normal(Key::Up, &view, 0), KeyAction::ScrollUp));
    assert!(matches!(normal(Key::Char('h'), &view, 0), KeyAction::ScrollLeft));
    assert!(matches!(normal(Key::Left, &view, 0), KeyAction::ScrollLeft));
    assert!(matches!(normal(Key::Char('l'), &view, 0), KeyAction::ScrollRight));
    assert!(matches!(normal(Key::Right, &view, 0), KeyAction::ScrollRight));
    assert!(matches!(normal(Key::Enter, &view, 5), KeyAction::Ignored));
}

#[test]
fn enter_drills_down_from_a_data_row_only() {
    assert!(matches!(normal(Key::Enter, &ViewType::Runs, 2), KeyAction::ViewDetails));
    assert!(matches!(normal(Key::Enter, &ViewType::Runs, 1), KeyAction::Ignored));
    assert!(matches!(normal(Key::Enter, &ViewType::Runs, 0), KeyAction::Ignored));
    assert!(matches!(normal(Key::Enter, &ViewType::PipelineRuns("p".to_string()), 7), KeyAction::ViewDetails));
    assert!(matches!(normal(Key::Enter, &ViewType::Pipelines, 2), KeyAction::ViewPipelineRuns));
    assert!(matches!(normal(Key::Enter, &ViewType::Pipelines, 1), KeyAction::Ignored));
    assert!(matches!(normal(Key::Enter, &ViewType::Contexts, 2), KeyAction::SwitchContext(name) if name.is_empty()));
    assert!(matches!(normal(Key::Enter, &ViewType::Contexts, 1), KeyAction::Ignored));
    assert!(matches!(normal(Key::Enter, &ViewType::Default, 2), KeyAction::Ignored));
}

#[test]
fn context_list_keys() {
    assert!(matches!(normal(Key::Char('a'), &ViewType::Contexts, 0), KeyAction::AddContext));
    assert!(matches!(normal(Key::Char('d'), &ViewType::Contexts, 2), KeyAction::DeleteContext));
    assert!(matches!(normal(Key::Char('d'), &ViewType::Contexts, 1), KeyAction::Ignored));
    assert!(matches!(normal(Key::Char('a'), &ViewType::Runs, 2), KeyAction::Ignored));
    assert!(matches!(normal(Key::Char('d'), &ViewType::Pipelines, 2), KeyAction::Ignored));
}

#[test]
fn start_screen_ignores_other_keys() {
    for key in [Key::Char('j'), Key::Down, Key::Enter, Key::Char('a'), Key::Left] {
        assert!(matches!(normal(key, &ViewType::Default, 3), KeyAction::Ignored));
    }
}

#[test]
fn actions_are_copied() {
    let action = KeyAction::SwitchContext("prod".to_string());
    assert!(matches!(action.clone(), KeyAction::SwitchContext(name) if name == "prod"));
    assert!(matches!(KeyAction::SelectNext(4).clone(), KeyAction::SelectNext(4)));
}
