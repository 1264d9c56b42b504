//! From a key to what it means on the screen in view.

use vstd::prelude::*;
use crate::views::{ViewModel, ViewType};

verus! {

/// A key of the keyboard, as far as the dashboard tells keys apart.
#[derive(Debug, Clone, Copy, PartialEq, Eq, Structural)]
pub enum Key {
    Esc,
    Enter,
    Backspace,
    Up,
    Down,
    Left,
    Right,
    Char(char),
    /// Any other key.
    Other,
}

/// What a key asks the dashboard to do.
#[derive(Debug)]
pub enum KeyAction {
    Quit,
    NavigateBack,
    ToggleCommandMode,
    UpdateCommandInput(char),
    ClearCommandInput,
    ExecuteCommand,
    ToggleSearchMode,
    CommitSearch,
    CancelSearch,
    UpdateSearchInput(char),
    ClearSearchInput,
    ScrollUp,
    ScrollDown,
    ScrollLeft,
    ScrollRight,
    /// Move the cursor down; the number of rows shown, or zero when the
    /// caller is to fill it in.
    SelectNext(usize),
    /// Move the cursor up; the number of rows shown, or zero when the
    /// caller is to fill it in.
    SelectPrevious(usize),
    ViewDetails,
    ViewPipelineRuns,
    Ignored,
    /// Use the context of this name, or the selected one when the name is
    /// empty.
    SwitchContext(String),
    AddContext,
    DeleteContext,
}

/// An action as a mathematical value.
pub enum ActionModel {
    Quit,
    NavigateBack,
    ToggleCommandMode,
    UpdateCommandInput(char),
    ClearCommandInput,
    ExecuteCommand,
    ToggleSearchMode,
    CommitSearch,
    CancelSearch,
    UpdateSearchInput(char),
    ClearSearchInput,
    ScrollUp,
    ScrollDown,
    ScrollLeft,
    ScrollRight,
    SelectNext(usize),
    SelectPrevious(usize),
    ViewDetails,
    ViewPipelineRuns,
    Ignored,
    SwitchContext(Seq<char>),
    AddContext,
    DeleteContext,
}

impl View for KeyAction {
    type V = ActionModel;

    open spec fn view(&self) -> ActionModel {
        match self {
            KeyAction::Quit => ActionModel::Quit,
            KeyAction::NavigateBack => ActionModel::NavigateBack,
            KeyAction::ToggleCommandMode => ActionModel::ToggleCommandMode,
            KeyAction::UpdateCommandInput(c) => ActionModel::UpdateCommandInput(*c),
            KeyAction::ClearCommandInput => ActionModel::ClearCommandInput,
            KeyAction::ExecuteCommand => ActionModel::ExecuteCommand,
            KeyAction::ToggleSearchMode => ActionModel::ToggleSearchMode,
            KeyAction::CommitSearch => ActionModel::CommitSearch,
            KeyAction::CancelSearch => ActionModel::CancelSearch,
            KeyAction::UpdateSearchInput(c) => ActionModel::UpdateSearchInput(*c),
            KeyAction::ClearSearchInput => ActionModel::ClearSearchInput,
            KeyAction::ScrollUp => ActionModel::ScrollUp,
            KeyAction::ScrollDown => ActionModel::ScrollDown,
            KeyAction::ScrollLeft => ActionModel::ScrollLeft,
            KeyAction::ScrollRight => ActionModel::ScrollRight,
            KeyAction::SelectNext(n) => ActionModel::SelectNext(*n),
            KeyAction::SelectPrevious(n) => ActionModel::SelectPrevious(*n),
            KeyAction::ViewDetails => ActionModel::ViewDetails,
            KeyAction::ViewPipelineRuns => ActionModel::ViewPipelineRuns,
            KeyAction::Ignored => ActionModel::Ignored,
            KeyAction::SwitchContext(name) => ActionModel::SwitchContext(name@),
            KeyAction::AddContext => ActionModel::AddContext,
            KeyAction::DeleteContext => ActionModel::DeleteContext,
        }
    }
}

impl Clone for KeyAction {
    fn clone(&self) -> (r: Self)
        ensures
            r@ == self@,
    {
        match self {
            KeyAction::Quit => KeyAction::Quit,
            KeyAction::NavigateBack => KeyAction::NavigateBack,
            KeyAction::ToggleCommandMode => KeyAction::ToggleCommandMode,
            KeyAction::UpdateCommandInput(c) => KeyAction::UpdateCommandInput(*c),
            KeyAction::ClearCommandInput => KeyAction::ClearCommandInput,
            KeyAction::ExecuteCommand => KeyAction::ExecuteCommand,
            KeyAction::ToggleSearchMode => KeyAction::ToggleSearchMode,
            KeyAction::CommitSearch => KeyAction::CommitSearch,
            KeyAction::CancelSearch => KeyAction::CancelSearch,
            KeyAction::UpdateSearchInput(c) => KeyAction::UpdateSearchInput(*c),
            KeyAction::ClearSearchInput => KeyAction::ClearSearchInput,
            KeyAction::ScrollUp => KeyAction::ScrollUp,
            KeyAction::ScrollDown => KeyAction::ScrollDown,
            KeyAction::ScrollLeft => KeyAction::ScrollLeft,
            KeyAction::ScrollRight => KeyAction::ScrollRight,
            KeyAction::SelectNext(n) => KeyAction::SelectNext(*n),
            KeyAction::SelectPrevious(n) => KeyAction::SelectPrevious(*n),
            KeyAction::ViewDetails => KeyAction::ViewDetails,
            KeyAction::ViewPipelineRuns => KeyAction::ViewPipelineRuns,
            KeyAction::Ignored => KeyAction::Ignored,
            KeyAction::SwitchContext(name) => KeyAction::SwitchContext(name.clone()),
            KeyAction::AddContext => KeyAction::AddContext,
            KeyAction::DeleteContext => KeyAction::DeleteContext,
        }
    }
}

/// What a key means while the command line takes the keys.
pub open spec fn command_line_action(key: Key) -> ActionModel {
    match key {
        Key::Esc => ActionModel::ToggleCommandMode,
        Key::Char(c) => ActionModel::UpdateCommandInput(c),
        Key::Backspace => ActionModel::ClearCommandInput,
        Key::Enter => ActionModel::ExecuteCommand,
        _ => ActionModel::Ignored,
    }
}

/// What a key means while the search line takes the keys.
pub open spec fn search_line_action(key: Key) -> ActionModel {
    match key {
        Key::Esc => ActionModel::CancelSearch,
        Key::Char(c) => ActionModel::UpdateSearchInput(c),
        Key::Backspace => ActionModel::ClearSearchInput,
        Key::Enter => ActionModel::CommitSearch,
        _ => ActionModel::Ignored,
    }
}

/// Whether the key moves down: `j` or the down arrow.
pub open spec fn is_down(key: Key) -> bool {
    key == Key::Char('j') || key == Key::Down
}

/// Whether the key moves up: `k` or the up arrow.
pub open spec fn is_up(key: Key) -> bool {
    key == Key::Char('k') || key == Key::Up
}

/// Whether the key moves left: `h` or the left arrow.
pub open spec fn is_left(key: Key) -> bool {
    key == Key::Char('h') || key == Key::Left
}

/// Whether the key moves right: `l` or the right arrow.
pub open spec fn is_right(key: Key) -> bool {
    key == Key::Char('l') || key == Key::Right
}

/// What a key means on a list: the movement keys move the cursor, and
/// Enter, on a data row, does what `on_enter` says.
pub open spec fn list_action(key: Key, selected_index: usize, on_enter: ActionModel)
    -> ActionModel {
    if is_down(key) {
        ActionModel::SelectNext(0)
    } else if is_up(key) {
        ActionModel::SelectPrevious(0)
    } else if key == Key::Enter && selected_index >= 2 {
        on_enter
    } else {
        ActionModel::Ignored
    }
}

/// What a key means on the detail screen: the movement keys scroll.
pub open spec fn detail_action(key: Key) -> ActionModel {
    if is_down(key) {
        ActionModel::ScrollDown
    } else if is_up(key) {
        ActionModel::ScrollUp
    } else if is_left(key) {
        ActionModel::ScrollLeft
    } else if is_right(key) {
        ActionModel::ScrollRight
    } else {
        ActionModel::Ignored
    }
}

/// What a key means on the list of contexts: as on any list, Enter uses
/// the selected context; besides, `a` adds a context and `d`, on a data
/// row, deletes the selected one.
pub open spec fn contexts_action(key: Key, selected_index: usize) -> ActionModel {
    if is_down(key) || is_up(key) || key == Key::Enter {
        list_action(key, selected_index, ActionModel::SwitchContext(Seq::empty()))
    } else if key == Key::Char('a') {
        ActionModel::AddContext
    } else if key == Key::Char('d') && selected_index >= 2 {
        ActionModel::DeleteContext
    } else {
        ActionModel::Ignored
    }
}

/// Whether the rows of a screen can be searched.
pub open spec fn is_searchable(view: ViewModel) -> bool {
    view is Runs || view is PipelineRuns || view is Pipelines
}

/// What a key means. A line that takes the keys comes first, the command
/// line before the search line. Otherwise `q` quits, `:` opens the command
/// line, `/` opens the search line on a screen that can be searched, Esc
/// goes back, and any other key means what the screen in view makes of it.
pub open spec fn key_action(
    key: Key,
    view: ViewModel,
    command_mode: bool,
    search_mode: bool,
    selected_index: usize,
) -> ActionModel {
    if command_mode {
        command_line_action(key)
    } else if search_mode {
        search_line_action(key)
    } else if key == Key::Char('q') {
        ActionModel::Quit
    } else if key == Key::Char(':') {
        ActionModel::ToggleCommandMode
    } else if key == Key::Char('/') {
        if is_searchable(view) {
            ActionModel::ToggleSearchMode
        } else {
            ActionModel::Ignored
        }
    } else if key == Key::Esc {
        ActionModel::NavigateBack
    } else {
        match view {
            ViewModel::Run(_) => detail_action(key),
            ViewModel::Runs | ViewModel::PipelineRuns(_) => list_action(
                key,
                selected_index,
                ActionModel::ViewDetails,
            ),
            ViewModel::Contexts => contexts_action(key, selected_index),
            ViewModel::Pipelines => list_action(
                key,
                selected_index,
                ActionModel::ViewPipelineRuns,
            ),
            ViewModel::Default => ActionModel::Ignored,
        }
    }
}

fn handle_run_view_key(key: Key, _selected_index: usize) -> (r: KeyAction)
    ensures
        r@ == detail_action(key),
{
    match key {
        Key::Char('j') | Key::Down => KeyAction::ScrollDown,
        Key::Char('k') | Key::Up => KeyAction::ScrollUp,
        Key::Char('h') | Key::Left => KeyAction::ScrollLeft,
        Key::Char('l') | Key::Right => KeyAction::ScrollRight,
        _ => KeyAction::Ignored,
    }
}

fn handle_runs_view_key(key: Key, selected_index: usize) -> (r: KeyAction)
    ensures
        r@ == list_action(key, selected_index, ActionModel::ViewDetails),
{
    match key {
        Key::Char('j') | Key::Down => KeyAction::SelectNext(0),
        Key::Char('k') | Key::Up => KeyAction::SelectPrevious(0),
        Key::Enter => if selected_index >= 2 {
            KeyAction::ViewDetails
        } else {
            KeyAction::Ignored
        },
        _ => KeyAction::Ignored,
    }
}

fn handle_contexts_view_key(key: Key, selected_index: usize) -> (r: KeyAction)
    ensures
        r@ == contexts_action(key, selected_index),
{
    match key {
        Key::Char('j') | Key::Down => KeyAction::SelectNext(0),
        Key::Char('k') | Key::Up => KeyAction::SelectPrevious(0),
        Key::Enter => if selected_index >= 2 {
            KeyAction::SwitchContext(String::new())
        } else {
            KeyAction::Ignored
        },
        Key::Char('a') => KeyAction::AddContext,
        Key::Char('d') => if selected_index >= 2 {
            KeyAction::DeleteContext
        } else {
            KeyAction::Ignored
        },
        _ => KeyAction::Ignored,
    }
}

fn handle_pipelines_view_key(key: Key, selected_index: usize) -> (r: KeyAction)
    ensures
        r@ == list_action(key, selected_index, ActionModel::ViewPipelineRuns),
{
    match key {
        Key::Char('j') | Key::Down => KeyAction::SelectNext(0),
        Key::Char('k') | Key::Up => KeyAction::SelectPrevious(0),
        Key::Enter => if selected_index >= 2 {
            KeyAction::ViewPipelineRuns
        } else {
            KeyAction::Ignored
        },
        _ => KeyAction::Ignored,
    }
}

/// What the key `key` means on the screen `view`, given which line takes
/// the keys and where the cursor is.
pub fn handle_key(
    key: Key,
    view: &ViewType,
    command_mode: bool,
    search_mode: bool,
    selected_index: usize,
) -> (r: KeyAction)
    ensures
        r@ == key_action(key, view@, command_mode, search_mode, selected_index),
{
    if command_mode {
        match key {
            Key::Esc => KeyAction::ToggleCommandMode,
            Key::Char(c) => KeyAction::UpdateCommandInput(c),
            Key::Backspace => KeyAction::ClearCommandInput,
            Key::Enter => KeyAction::ExecuteCommand,
            _ => KeyAction::Ignored,
        }
    } else if search_mode {
        match key {
            Key::Esc => KeyAction::CancelSearch,
            Key::Char(c) => KeyAction::UpdateSearchInput(c),
            Key::Backspace => KeyAction::ClearSearchInput,
            Key::Enter => KeyAction::CommitSearch,
            _ => KeyAction::Ignored,
        }
    } else {
        match key {
            Key::Char('q') => KeyAction::Quit,
            Key::Char(':') => KeyAction::ToggleCommandMode,
            Key::Char('/') => match view {
                ViewType::Runs | ViewType::PipelineRuns(_) | ViewType::Pipelines => {
                    KeyAction::ToggleSearchMode
                },
                _ => KeyAction::Ignored,
            },
            Key::Esc => KeyAction::NavigateBack,
            _ => match view {
                ViewType::Run(_) => handle_run_view_key(key, selected_index),
                ViewType::Runs => handle_runs_view_key(key, selected_index),
                ViewType::Contexts => handle_contexts_view_key(key, selected_index),
                ViewType::Pipelines => handle_pipelines_view_key(key, selected_index),
                ViewType::PipelineRuns(_) => handle_runs_view_key(key, selected_index),
                ViewType::Default => KeyAction::Ignored,
            },
        }
    }
}

/// On a list, Enter acts only on a data row.
pub proof fn lemma_enter_needs_a_data_row(key: Key, view: ViewModel, selected_index: usize)
    requires
        selected_index < 2,
    ensures
        !(key_action(key, view, false, false, selected_index) is ViewDetails),
        !(key_action(key, view, false, false, selected_index) is ViewPipelineRuns),
        !(key_action(key, view, false, false, selected_index) is SwitchContext),
        !(key_action(key, view, false, false, selected_index) is DeleteContext),
{
}

/// The search line opens only on a screen whose rows can be searched, and
/// the movement keys scroll on the detail screen and nowhere else.
pub proof fn lemma_keys_follow_the_screen(key: Key, view: ViewModel, selected_index: usize)
    ensures
        key_action(key, view, false, false, selected_index) is ToggleSearchMode ==> is_searchable(
            view,
        ),
        key_action(key, view, false, false, selected_index) is ScrollDown ==> view is Run,
        key_action(key, view, false, false, selected_index) is SelectNext ==> !(view is Run),
        key == Key::Esc ==> key_action(key, view, false, false, selected_index)
            == ActionModel::NavigateBack,
{
}

} // verus!
