//! What the dashboard does for each action of a key: the command line, the
//! contexts, the drill-down from a list, and the dispatch of an action to
//! all of these.
//!
//! What needs the outside world is not done here. The dashboard hands out an
//! effect instead: the caller performs it and reports how it went.

use vstd::prelude::*;
use vstd::string::*;
use crate::app::{App, AppModel, AppStateModel, ConnectionStatus, StatusModel};
use crate::command::{
    command_model, parse_command, parsed_command, Command, CommandModel, CommandSyntaxError,
};
use crate::config::{has_name, ConfigModel, ContextConfig, ContextModel};
use crate::fetch::{
    request_model, FetchKind, FetchKindModel, FetchRequest, FetchRequestModel,
};
use crate::input::{ActionModel, KeyAction};
use crate::navigation::{lemma_detail_stays_sound, lemma_history_stays_sound};
use crate::rows::{context_lines, context_rows};
use crate::text::{
    chars_of, drop_last_char, prefix, push_char, split_words, string_of, strip_prefixes, trim,
    trim_chars, trim_start_matches, trim_str, without_last, words,
};
use crate::views::{ViewModel, ViewType};

verus! {

/// Which change of the contexts is to be written to the store.
#[derive(Debug, Clone, Copy, PartialEq, Eq, Structural)]
pub enum Saved {
    /// The context in use was changed on the command line.
    ContextCommand,
    /// The context in use was changed in the list of contexts.
    ContextSwitched,
    /// A context was set.
    ContextAdded,
    /// A context was removed.
    ContextDeleted,
}

/// What the caller is to do after an action.
#[derive(Debug)]
pub enum Effect {
    /// Nothing.
    Nothing,
    /// End the program.
    Quit,
    /// Report the state of the dashboard in the log.
    Debug,
    /// Fetch what the screen that came into view shows, and hand it to
    /// `finish_load`.
    Load(FetchRequest),
    /// Fetch the run that was picked, and hand it to `open_run`.
    OpenRun(FetchRequest),
    /// Write the contexts to the store, and report to `config_saved`.
    SaveConfig(Saved),
}

/// An effect as a mathematical value.
pub enum EffectModel {
    Nothing,
    Quit,
    Debug,
    Load(FetchRequestModel),
    OpenRun(FetchRequestModel),
    SaveConfig(Saved),
}

impl View for Effect {
    type V = EffectModel;

    open spec fn view(&self) -> EffectModel {
        match self {
            Effect::Nothing => EffectModel::Nothing,
            Effect::Quit => EffectModel::Quit,
            Effect::Debug => EffectModel::Debug,
            Effect::Load(request) => EffectModel::Load(request@),
            Effect::OpenRun(request) => EffectModel::OpenRun(request@),
            Effect::SaveConfig(saved) => EffectModel::SaveConfig(*saved),
        }
    }
}

/// The effect of a screen coming into view: to fetch what it asks for.
pub open spec fn load_effect(request: Option<FetchRequestModel>) -> EffectModel {
    match request {
        Some(r) => EffectModel::Load(r),
        None => EffectModel::Nothing,
    }
}

fn to_load_effect(request: Option<FetchRequest>) -> (r: Effect)
    ensures
        r@ == load_effect(request_model(request)),
{
    match request {
        Some(request) => Effect::Load(request),
        None => Effect::Nothing,
    }
}

/// The status after a change of the context in use was refused or could
/// not be written.
pub open spec fn context_failure(reason: Seq<char>) -> StatusModel {
    StatusModel::Failed("Context error: "@ + reason)
}

/// The status after the removal of a context was refused or could not be
/// written.
pub open spec fn delete_failure(reason: Seq<char>) -> StatusModel {
    StatusModel::Failed("Cannot delete: "@ + reason)
}

/// The text that says that no context is called `name`.
pub open spec fn not_found_text(name: Seq<char>) -> Seq<char> {
    "Context '"@ + name + "' not found"@
}

/// The name in the first column of a row of the list of contexts, without
/// the mark of the context in use; nothing for a row without a word.
pub open spec fn context_name_in(row: Seq<char>) -> Option<Seq<char>> {
    if words(row).len() > 0 {
        Some(trim(strip_prefixes(words(row)[0], "*"@)))
    } else {
        None
    }
}

/// The name in the first column of a row of the list of pipelines.
pub open spec fn pipeline_name_in(row: Seq<char>) -> Seq<char> {
    trim(prefix(trim(row), 30))
}

/// The id in the first column of a row of a list of runs.
pub open spec fn run_id_in(row: Seq<char>) -> Seq<char> {
    crate::text::first_word(row)
}

impl AppModel {
    /// The command line opens empty, and closes the search line; or it
    /// closes.
    pub open spec fn toggle_command_mode(self) -> AppModel {
        if self.command_mode {
            AppModel { command_mode: false, ..self }
        } else {
            AppModel {
                command_mode: true,
                command_input: Seq::empty(),
                search_mode: false,
                ..self
            }
        }
    }

    /// The command loses its last character; the command line closes when
    /// nothing is left.
    pub open spec fn clear_command_input(self) -> AppModel {
        AppModel {
            command_input: without_last(self.command_input),
            command_mode: self.command_mode && self.command_input.len() > 1,
            ..self
        }
    }

    /// The rows are the list of contexts, with the cursor on the first
    /// context.
    pub open spec fn populate_contexts_list(self) -> AppModel {
        AppModel {
            items: context_lines(self.config),
            selected_index: 2,
            list_offset: 0,
            ..self
        }
    }

    /// The command line opens with the pattern of the command that adds a
    /// context.
    pub open spec fn add_context(self) -> AppModel {
        AppModel { command_mode: true, command_input: "context-add name url"@, ..self }
    }

    /// A move to `target`, with what the new screen asks for.
    pub open spec fn go(self, target: ViewModel, reset_history: bool) -> (AppModel, EffectModel) {
        let next = self.enter_view(target, reset_history);
        (
            next,
            if target == self.view {
                EffectModel::Nothing
            } else {
                load_effect(next.load_request())
            },
        )
    }

    /// The context `name` comes into use, to be written to the store; or,
    /// when there is no such context, the status says so.
    pub open spec fn use_context(self, name: Seq<char>, saved: Saved) -> (AppModel, EffectModel) {
        if has_name(self.config.contexts, name) {
            (
                AppModel { config: ConfigModel { last_context: name, ..self.config }, ..self },
                EffectModel::SaveConfig(saved),
            )
        } else {
            (
                AppModel { connection_status: context_failure(not_found_text(name)), ..self },
                EffectModel::Nothing,
            )
        }
    }

    /// What a command does. A new endpoint is taken at once. A change of
    /// the contexts is made and is to be written to the store. A command
    /// that names a screen enters it, with no way back but to the start
    /// screen. A command without its arguments shows in the status. An
    /// unknown command does nothing.
    pub open spec fn run_command(self, command: Result<CommandModel, CommandSyntaxError>) -> (
        AppModel,
        EffectModel,
    ) {
        match command {
            Err(e) => (
                AppModel { connection_status: StatusModel::Failed(e.text()), ..self },
                EffectModel::Nothing,
            ),
            Ok(CommandModel::SetUrl(url)) => (
                AppModel {
                    dagster_url: url,
                    connection_status: StatusModel::Disconnected,
                    ..self
                },
                EffectModel::Nothing,
            ),
            Ok(CommandModel::SwitchContext(name)) => self.use_context(
                name,
                Saved::ContextCommand,
            ),
            Ok(CommandModel::AddContext { name, url, runs_limit }) => (
                AppModel {
                    config: self.config.with_context(name, ContextModel { url, runs_limit }),
                    ..self
                },
                EffectModel::SaveConfig(Saved::ContextAdded),
            ),
            Ok(CommandModel::Contexts) => self.go(ViewModel::Contexts, true),
            Ok(CommandModel::Runs) => (AppModel {
                state: AppStateModel { selected_pipeline: None, ..self.state },
                ..self
            }).go(ViewModel::Runs, true),
            Ok(CommandModel::Pipelines) => self.go(ViewModel::Pipelines, true),
            Ok(CommandModel::Debug) => (self, EffectModel::Debug),
            Ok(CommandModel::Quit) => (self, EffectModel::Quit),
            Ok(CommandModel::Unknown) => (self, EffectModel::Nothing),
        }
    }

    /// The command on the command line is carried out, and the command
    /// line closes empty.
    pub open spec fn execute_command(self) -> (AppModel, EffectModel) {
        let (after, effect) = self.run_command(parsed_command(self.command_input));
        (AppModel { command_mode: false, command_input: Seq::empty(), ..after }, effect)
    }

    /// The dashboard after a change of the contexts was written to the
    /// store, or could not be written. A new context in use brings its
    /// endpoint; the list of contexts, when in view, is brought up to date.
    pub open spec fn config_saved(self, saved: Saved, outcome: Result<(), Seq<char>>)
        -> AppModel {
        let listed = if self.view is Contexts {
            self.populate_contexts_list()
        } else {
            self
        };
        match (saved, outcome) {
            (Saved::ContextCommand, Ok(_)) => AppModel {
                dagster_url: self.config.current_context().url,
                connection_status: StatusModel::Disconnected,
                ..self
            },
            (Saved::ContextSwitched, Ok(_)) => AppModel {
                dagster_url: self.config.current_context().url,
                connection_status: StatusModel::Disconnected,
                ..listed
            },
            (Saved::ContextAdded, Ok(_)) => AppModel {
                connection_status: StatusModel::Connected,
                ..listed
            },
            (Saved::ContextDeleted, Ok(_)) => listed,
            (Saved::ContextDeleted, Err(reason)) => AppModel {
                connection_status: delete_failure(reason),
                ..self
            },
            (_, Err(reason)) => AppModel { connection_status: context_failure(reason), ..self },
        }
    }

    /// The selected row, when the cursor points at a row.
    pub open spec fn selected_row(self) -> Option<Seq<char>> {
        if self.selected_index < self.items.len() {
            Some(self.items[self.selected_index as int])
        } else {
            None
        }
    }

    /// In the list of contexts, the context `name` comes into use, or the
    /// context of the selected row when `name` is empty.
    pub open spec fn switch_context(self, name: Seq<char>) -> (AppModel, EffectModel) {
        if !(self.view is Contexts) {
            (self, EffectModel::Nothing)
        } else if name.len() > 0 {
            self.use_context(name, Saved::ContextSwitched)
        } else {
            match self.selected_row() {
                Some(row) => match context_name_in(row) {
                    Some(picked) => self.use_context(picked, Saved::ContextSwitched),
                    None => (self, EffectModel::Nothing),
                },
                None => (self, EffectModel::Nothing),
            }
        }
    }

    /// The context called `name` is removed, to be written to the store;
    /// or, when it cannot be removed, the status says why.
    pub open spec fn remove_context(self, name: Seq<char>) -> (AppModel, EffectModel) {
        if name == "default"@ {
            (
                AppModel {
                    connection_status: delete_failure("Cannot remove default context"@),
                    ..self
                },
                EffectModel::Nothing,
            )
        } else if !has_name(self.config.contexts, name) {
            (
                AppModel { connection_status: delete_failure(not_found_text(name)), ..self },
                EffectModel::Nothing,
            )
        } else {
            (
                AppModel { config: self.config.without_context(name), ..self },
                EffectModel::SaveConfig(Saved::ContextDeleted),
            )
        }
    }

    /// In the list of contexts, the context of the selected row is removed.
    pub open spec fn delete_context(self) -> (AppModel, EffectModel) {
        if !(self.view is Contexts) {
            (self, EffectModel::Nothing)
        } else {
            match self.selected_row() {
                Some(row) => match context_name_in(row) {
                    Some(picked) => self.remove_context(picked),
                    None => (self, EffectModel::Nothing),
                },
                None => (self, EffectModel::Nothing),
            }
        }
    }

    /// In a list of runs, with the cursor on a data row: the cursor is
    /// remembered and the run of the row is to be fetched.
    pub open spec fn enter_run_details_view(self) -> (AppModel, EffectModel) {
        if self.shows_runs() && self.selected_index >= 2 {
            let saved = self.save_view_state();
            match self.selected_row() {
                Some(row) => (
                    saved,
                    EffectModel::OpenRun(
                        FetchRequestModel {
                            view: self.view,
                            url: self.dagster_url,
                            kind: FetchKindModel::Run { run_id: run_id_in(row) },
                        },
                    ),
                ),
                None => (saved, EffectModel::Nothing),
            }
        } else {
            (self, EffectModel::Nothing)
        }
    }

    /// In the list of pipelines, with the cursor on a data row: the cursor
    /// is remembered, the runs are narrowed to the pipeline of the row, and
    /// the list of its runs comes into view.
    pub open spec fn enter_pipeline_runs_view(self) -> (AppModel, EffectModel) {
        if self.view is Pipelines && self.selected_index >= 2 {
            let saved = self.save_view_state();
            match self.selected_row() {
                Some(row) => (AppModel {
                    state: AppStateModel {
                        selected_pipeline: Some(pipeline_name_in(row)),
                        ..saved.state
                    },
                    ..saved
                }).go(ViewModel::PipelineRuns(pipeline_name_in(row)), false),
                None => (saved, EffectModel::Nothing),
            }
        } else {
            (self, EffectModel::Nothing)
        }
    }

    /// The number of rows shown that a move of the cursor goes by: the
    /// number that the action names, or the caller's when it names none.
    pub open spec fn rows_shown(named: usize, viewport_height: usize) -> usize {
        if named == 0 {
            viewport_height
        } else {
            named
        }
    }

    /// Whether the action can be carried out in machine words: a move down
    /// must be able to form its sums.
    pub open spec fn can_apply(self, action: ActionModel, viewport_height: usize) -> bool {
        match action {
            ActionModel::SelectNext(named) => self.can_move_down(
                Self::rows_shown(named, viewport_height),
            ),
            _ => true,
        }
    }

    /// The dashboard after an action, and what the caller is to do.
    pub open spec fn apply_key_action(self, action: ActionModel, viewport_height: usize) -> (
        AppModel,
        EffectModel,
    ) {
        match action {
            ActionModel::ToggleCommandMode => (self.toggle_command_mode(), EffectModel::Nothing),
            ActionModel::UpdateCommandInput(c) => (
                AppModel { command_input: self.command_input.push(c), ..self },
                EffectModel::Nothing,
            ),
            ActionModel::ClearCommandInput => (self.clear_command_input(), EffectModel::Nothing),
            ActionModel::ExecuteCommand => self.execute_command(),
            ActionModel::ToggleSearchMode => (self.enter_search_mode(), EffectModel::Nothing),
            ActionModel::CommitSearch => (self.commit_search(), EffectModel::Nothing),
            ActionModel::CancelSearch => (self.cancel_search(), EffectModel::Nothing),
            ActionModel::UpdateSearchInput(c) => (self.update_search(c), EffectModel::Nothing),
            ActionModel::ClearSearchInput => (self.clear_search_input(), EffectModel::Nothing),
            ActionModel::NavigateBack => (
                self.navigate_back(),
                if self.can_navigate_back() {
                    load_effect(self.navigate_back().load_request())
                } else {
                    EffectModel::Nothing
                },
            ),
            ActionModel::SelectNext(named) => (
                self.next_item(Self::rows_shown(named, viewport_height)),
                EffectModel::Nothing,
            ),
            ActionModel::SelectPrevious(_) => (self.previous_item(), EffectModel::Nothing),
            ActionModel::ViewDetails => self.enter_run_details_view(),
            ActionModel::ViewPipelineRuns => self.enter_pipeline_runs_view(),
            ActionModel::SwitchContext(name) => self.switch_context(name),
            ActionModel::AddContext => (self.add_context(), EffectModel::Nothing),
            ActionModel::DeleteContext => self.delete_context(),
            ActionModel::ScrollDown => (self.scroll(1, 0), EffectModel::Nothing),
            ActionModel::ScrollUp => (self.scroll(-1, 0), EffectModel::Nothing),
            ActionModel::ScrollLeft => (self.scroll(0, -1), EffectModel::Nothing),
            ActionModel::ScrollRight => (self.scroll(0, 1), EffectModel::Nothing),
            ActionModel::Ignored | ActionModel::Quit => (self, EffectModel::Nothing),
        }
    }
}

impl App {
    /// Opens or closes the command line.
    pub fn toggle_command_mode(&mut self)
        ensures
            final(self)@ == old(self)@.toggle_command_mode(),
    {
        self.command_mode = !self.command_mode;
        if self.command_mode {
            self.command_input = String::new();
            self.search_mode = false;
        }
    }

    /// Takes the last character from the command.
    pub fn clear_command_input(&mut self)
        ensures
            final(self)@ == old(self)@.clear_command_input(),
    {
        self.command_input = drop_last_char(self.command_input.as_str());
        if self.command_input.as_str().is_empty() {
            self.command_mode = false;
        }
    }

    /// Shows the list of contexts, with the cursor on the first context.
    pub fn populate_contexts_list(&mut self)
        ensures
            final(self)@ == old(self)@.populate_contexts_list(),
    {
        self.items = context_rows(&self.config);
        self.selected_index = 2;
        self.list_offset = 0;
    }

    /// Opens the command line with the pattern of the command that adds a
    /// context.
    pub fn add_context(&mut self)
        ensures
            final(self)@ == old(self)@.add_context(),
    {
        self.command_mode = true;
        self.command_input = String::from_str("context-add name url");
    }

    fn go(&mut self, target: ViewType, reset_history: bool) -> (r: Effect)
        ensures
            (final(self)@, r@) == old(self)@.go(target@, reset_history),
    {
        let request = self.enter_view(target, reset_history);
        to_load_effect(request)
    }

    fn use_context(&mut self, name: &str, saved: Saved) -> (r: Effect)
        ensures
            (final(self)@, r@) == old(self)@.use_context(name@, saved),
    {
        match self.config.set_context(name) {
            Ok(_) => Effect::SaveConfig(saved),
            Err(e) => {
                self.connection_status = ConnectionStatus::Failed(
                    String::from_str("Context error: ").concat(e.message().as_str()),
                );
                Effect::Nothing
            },
        }
    }

    fn remove_context(&mut self, name: &str) -> (r: Effect)
        ensures
            (final(self)@, r@) == old(self)@.remove_context(name@),
    {
        match self.config.remove_context(name) {
            Ok(_) => Effect::SaveConfig(Saved::ContextDeleted),
            Err(e) => {
                self.connection_status = ConnectionStatus::Failed(
                    String::from_str("Cannot delete: ").concat(e.message().as_str()),
                );
                Effect::Nothing
            },
        }
    }

    fn run_command(&mut self, command: Result<Command, CommandSyntaxError>) -> (r: Effect)
        ensures
            (final(self)@, r@) == old(self)@.run_command(command_model(command)),
    {
        match command {
            Err(e) => {
                self.connection_status = ConnectionStatus::Failed(e.message());
                Effect::Nothing
            },
            Ok(Command::SetUrl(url)) => {
                self.dagster_url = url;
                self.connection_status = ConnectionStatus::Disconnected;
                Effect::Nothing
            },
            Ok(Command::SwitchContext(name)) => self.use_context(
                name.as_str(),
                Saved::ContextCommand,
            ),
            Ok(Command::AddContext { name, url, runs_limit }) => {
                self.config.add_context(name.as_str(), ContextConfig { url, runs_limit });
                Effect::SaveConfig(Saved::ContextAdded)
            },
            Ok(Command::Contexts) => self.go(ViewType::Contexts, true),
            Ok(Command::Runs) => {
                self.state.selected_pipeline = None;
                self.go(ViewType::Runs, true)
            },
            Ok(Command::Pipelines) => self.go(ViewType::Pipelines, true),
            Ok(Command::Debug) => Effect::Debug,
            Ok(Command::Quit) => Effect::Quit,
            Ok(Command::Unknown) => Effect::Nothing,
        }
    }

    /// Carries out the command on the command line, and closes the command
    /// line.
    pub fn execute_command(&mut self) -> (r: Effect)
        ensures
            (final(self)@, r@) == old(self)@.execute_command(),
    {
        let command = parse_command(self.command_input.as_str());
        let effect = self.run_command(command);
        self.command_mode = false;
        self.command_input = String::new();
        effect
    }

    /// Takes note that a change of the contexts was written to the store,
    /// or of the reason why it was not.
    pub fn config_saved(&mut self, saved: Saved, outcome: Result<(), String>)
        ensures
            final(self)@ == old(self)@.config_saved(
                saved,
                match outcome {
                    Ok(_) => Ok(()),
                    Err(reason) => Err(reason@),
                },
            ),
    {
        let on_contexts = match &self.view {
            ViewType::Contexts => true,
            _ => false,
        };
        match outcome {
            Ok(_) => {
                match saved {
                    Saved::ContextCommand => {
                        self.dagster_url = self.config.get_current_context().url;
                        self.connection_status = ConnectionStatus::Disconnected;
                    },
                    Saved::ContextSwitched => {
                        self.dagster_url = self.config.get_current_context().url;
                        self.connection_status = ConnectionStatus::Disconnected;
                        if on_contexts {
                            self.populate_contexts_list();
                        }
                    },
                    Saved::ContextAdded => {
                        if on_contexts {
                            self.populate_contexts_list();
                        }
                        self.connection_status = ConnectionStatus::Connected;
                    },
                    Saved::ContextDeleted => {
                        if on_contexts {
                            self.populate_contexts_list();
                        }
                    },
                }
            },
            Err(reason) => {
                let lead = match saved {
                    Saved::ContextDeleted => "Cannot delete: ",
                    _ => "Context error: ",
                };
                self.connection_status = ConnectionStatus::Failed(
                    String::from_str(lead).concat(reason.as_str()),
                );
            },
        }
    }

    /// The name in the first column of the selected row of the list of
    /// contexts.
    fn selected_context_name(&self) -> (r: Option<String>)
        ensures
            match r {
                Some(name) => self@.selected_row() is Some && context_name_in(
                    self@.selected_row()->0,
                ) == Some(name@),
                None => self@.selected_row() is None || context_name_in(self@.selected_row()->0)
                    is None,
            },
    {
        if self.selected_index >= self.items.len() {
            return None;
        }
        assert(self.items.deep_view()[self.selected_index as int]
            == self.items[self.selected_index as int]@);
        let parts = split_words(self.items[self.selected_index].as_str());
        if parts.len() == 0 {
            return None;
        }
        assert(parts.deep_view()[0] == parts[0]@);
        let bare = trim_start_matches(parts[0].as_str(), "*");
        Some(trim_str(bare.as_str()))
    }

    /// In the list of contexts, brings the context `context_name` into
    /// use, or the selected one when the name is empty.
    pub fn switch_context(&mut self, context_name: String) -> (r: Effect)
        ensures
            (final(self)@, r@) == old(self)@.switch_context(context_name@),
    {
        match &self.view {
            ViewType::Contexts => {},
            _ => {
                return Effect::Nothing;
            },
        }
        if !context_name.as_str().is_empty() {
            return self.use_context(context_name.as_str(), Saved::ContextSwitched);
        }
        match self.selected_context_name() {
            Some(name) => self.use_context(name.as_str(), Saved::ContextSwitched),
            None => Effect::Nothing,
        }
    }

    /// In the list of contexts, removes the selected context.
    pub fn delete_context(&mut self) -> (r: Effect)
        ensures
            (final(self)@, r@) == old(self)@.delete_context(),
    {
        match &self.view {
            ViewType::Contexts => {},
            _ => {
                return Effect::Nothing;
            },
        }
        match self.selected_context_name() {
            Some(name) => self.remove_context(name.as_str()),
            None => Effect::Nothing,
        }
    }

    /// In a list of runs, asks for the run of the selected row.
    pub fn enter_run_details_view(&mut self) -> (r: Effect)
        ensures
            (final(self)@, r@) == old(self)@.enter_run_details_view(),
    {
        if !self.shows_runs() || self.selected_index < 2 {
            return Effect::Nothing;
        }
        self.save_view_state();
        if self.selected_index >= self.items.len() {
            return Effect::Nothing;
        }
        assert(self.items.deep_view()[self.selected_index as int]
            == self.items[self.selected_index as int]@);
        let run_id = crate::text::first_word_of(self.items[self.selected_index].as_str());
        Effect::OpenRun(
            FetchRequest {
                view: self.view.clone(),
                url: self.dagster_url.clone(),
                kind: FetchKind::Run { run_id },
            },
        )
    }

    /// In the list of pipelines, enters the list of the runs of the
    /// selected pipeline.
    pub fn enter_pipeline_runs_view(&mut self) -> (r: Effect)
        ensures
            (final(self)@, r@) == old(self)@.enter_pipeline_runs_view(),
    {
        match &self.view {
            ViewType::Pipelines => {},
            _ => {
                return Effect::Nothing;
            },
        }
        if self.selected_index < 2 {
            return Effect::Nothing;
        }
        self.save_view_state();
        if self.selected_index >= self.items.len() {
            return Effect::Nothing;
        }
        assert(self.items.deep_view()[self.selected_index as int]
            == self.items[self.selected_index as int]@);
        let row = chars_of(self.items[self.selected_index].as_str());
        let mut column = trim_chars(&row);
        column.truncate(30);
        assert(column@ =~= prefix(trim(row@), 30));
        let name = string_of(&trim_chars(&column));
        self.state.selected_pipeline = Some(name.clone());
        self.go(ViewType::PipelineRuns(name), false)
    }

    /// Decides whether an action can be carried out in machine words.
    pub fn can_apply(&self, action: &KeyAction, viewport_height: usize) -> (r: bool)
        ensures
            r == self@.can_apply(action@, viewport_height),
    {
        match action {
            KeyAction::SelectNext(named) => {
                let rows = if *named == 0 {
                    viewport_height
                } else {
                    *named
                };
                self.can_move_down(rows)
            },
            _ => true,
        }
    }

    /// Carries out an action, in a list of which `viewport_height` rows are
    /// shown, and says what is left for the caller to do.
    pub fn apply_key_action(&mut self, action: KeyAction, viewport_height: usize) -> (r: Effect)
        requires
            old(self)@.can_apply(action@, viewport_height),
        ensures
            (final(self)@, r@) == old(self)@.apply_key_action(action@, viewport_height),
    {
        match action {
            KeyAction::ToggleCommandMode => {
                self.toggle_command_mode();
                Effect::Nothing
            },
            KeyAction::UpdateCommandInput(c) => {
                push_char(&mut self.command_input, c);
                Effect::Nothing
            },
            KeyAction::ClearCommandInput => {
                self.clear_command_input();
                Effect::Nothing
            },
            KeyAction::ExecuteCommand => self.execute_command(),
            KeyAction::ToggleSearchMode => {
                self.enter_search_mode();
                Effect::Nothing
            },
            KeyAction::CommitSearch => {
                self.commit_search();
                Effect::Nothing
            },
            KeyAction::CancelSearch => {
                self.cancel_search();
                Effect::Nothing
            },
            KeyAction::UpdateSearchInput(c) => {
                self.update_search(c);
                Effect::Nothing
            },
            KeyAction::ClearSearchInput => {
                self.clear_search_input();
                Effect::Nothing
            },
            KeyAction::NavigateBack => {
                let (_, request) = self.navigate_back();
                to_load_effect(request)
            },
            KeyAction::SelectNext(named) => {
                let rows = if named == 0 {
                    viewport_height
                } else {
                    named
                };
                self.next_item(rows);
                Effect::Nothing
            },
            KeyAction::SelectPrevious(named) => {
                let rows = if named == 0 {
                    viewport_height
                } else {
                    named
                };
                self.previous_item(rows);
                Effect::Nothing
            },
            KeyAction::ViewDetails => self.enter_run_details_view(),
            KeyAction::ViewPipelineRuns => self.enter_pipeline_runs_view(),
            KeyAction::SwitchContext(name) => self.switch_context(name),
            KeyAction::AddContext => {
                self.add_context();
                Effect::Nothing
            },
            KeyAction::DeleteContext => self.delete_context(),
            KeyAction::ScrollDown => {
                self.scroll_down();
                Effect::Nothing
            },
            KeyAction::ScrollUp => {
                self.scroll_up();
                Effect::Nothing
            },
            KeyAction::ScrollLeft => {
                self.scroll_left();
                Effect::Nothing
            },
            KeyAction::ScrollRight => {
                self.scroll_right();
                Effect::Nothing
            },
            KeyAction::Ignored | KeyAction::Quit => Effect::Nothing,
        }
    }
}

impl AppModel {
    /// The screen in view, the way back and the detail screen are those of
    /// `other`, but for the place to which the detail screen is scrolled.
    pub open spec fn same_place(self, other: AppModel) -> bool {
        &&& self.view == other.view
        &&& self.view_history == other.view_history
        &&& match (self.run_view, other.run_view) {
            (Some(a), Some(b)) => a.run_id == b.run_id,
            (None, None) => true,
            _ => false,
        }
    }
}

proof fn lemma_same_place_is_sound(before: AppModel, after: AppModel)
    requires
        before.is_sound(),
        after.same_place(before),
    ensures
        after.is_sound(),
{
}

proof fn lemma_go_is_sound(app: AppModel, target: ViewModel, reset_history: bool)
    requires
        app.is_sound(),
    ensures
        app.go(target, reset_history).0.is_sound(),
{
    lemma_history_stays_sound(app, target, reset_history);
    lemma_detail_stays_sound(app, target, reset_history);
}

proof fn lemma_command_is_sound(
    app: AppModel,
    command: Result<CommandModel, CommandSyntaxError>,
)
    requires
        app.is_sound(),
    ensures
        app.run_command(command).0.is_sound(),
{
    match command {
        Ok(CommandModel::Contexts) => {
            lemma_go_is_sound(app, ViewModel::Contexts, true);
        },
        Ok(CommandModel::Runs) => {
            let widened = AppModel {
                state: AppStateModel { selected_pipeline: None, ..app.state },
                ..app
            };
            lemma_same_place_is_sound(app, widened);
            lemma_go_is_sound(widened, ViewModel::Runs, true);
        },
        Ok(CommandModel::Pipelines) => {
            lemma_go_is_sound(app, ViewModel::Pipelines, true);
        },
        _ => {
            lemma_same_place_is_sound(app, app.run_command(command).0);
        },
    }
}

proof fn lemma_drill_down_is_sound(app: AppModel)
    requires
        app.is_sound(),
    ensures
        app.enter_run_details_view().0.is_sound(),
        app.enter_pipeline_runs_view().0.is_sound(),
{
    lemma_same_place_is_sound(app, app.save_view_state());
    lemma_same_place_is_sound(app, app.enter_run_details_view().0);
    if app.view is Pipelines && app.selected_index >= 2 {
        match app.selected_row() {
            Some(row) => {
                let saved = app.save_view_state();
                let narrowed = AppModel {
                    state: AppStateModel {
                        selected_pipeline: Some(pipeline_name_in(row)),
                        ..saved.state
                    },
                    ..saved
                };
                lemma_same_place_is_sound(app, narrowed);
                lemma_go_is_sound(narrowed, ViewModel::PipelineRuns(pipeline_name_in(row)), false);
            },
            None => {},
        }
    }
}

proof fn lemma_context_actions_are_sound(app: AppModel, name: Seq<char>)
    requires
        app.is_sound(),
    ensures
        app.switch_context(name).0.is_sound(),
        app.delete_context().0.is_sound(),
{
    lemma_same_place_is_sound(app, app.switch_context(name).0);
    lemma_same_place_is_sound(app, app.delete_context().0);
}

proof fn lemma_lines_are_sound(app: AppModel, c: char)
    requires
        app.is_sound(),
    ensures
        app.toggle_command_mode().is_sound(),
        app.clear_command_input().is_sound(),
        app.add_context().is_sound(),
        app.enter_search_mode().is_sound(),
        app.commit_search().is_sound(),
        app.cancel_search().is_sound(),
        app.update_search(c).is_sound(),
        app.clear_search_input().is_sound(),
{
    lemma_same_place_is_sound(app, app.update_search(c));
    lemma_same_place_is_sound(app, app.clear_search_input());
}

proof fn lemma_cursor_moves_are_sound(app: AppModel, viewport_height: usize, down: int, right: int)
    requires
        app.is_sound(),
    ensures
        app.next_item(viewport_height).is_sound(),
        app.previous_item().is_sound(),
        app.scroll(down, right).is_sound(),
{
    lemma_same_place_is_sound(app, app.scroll(down, right));
}

/// A report on the store of contexts leaves the way back and the detail
/// screen as they are.
pub proof fn lemma_config_saved_is_sound(
    app: AppModel,
    saved: Saved,
    outcome: Result<(), Seq<char>>,
)
    requires
        app.is_sound(),
    ensures
        app.config_saved(saved, outcome).is_sound(),
{
    lemma_same_place_is_sound(app, app.config_saved(saved, outcome));
}

/// Whatever the action, the way back stays sound and the detail screen
/// stays in step with the screen in view.
pub proof fn lemma_actions_keep_the_dashboard_sound(
    app: AppModel,
    action: ActionModel,
    viewport_height: usize,
)
    requires
        app.is_sound(),
    ensures
        app.apply_key_action(action, viewport_height).0.is_sound(),
{
    match action {
        ActionModel::ExecuteCommand => {
            let command = parsed_command(app.command_input);
            lemma_command_is_sound(app, command);
            lemma_same_place_is_sound(app.run_command(command).0, app.execute_command().0);
        },
        ActionModel::NavigateBack => {
            lemma_history_stays_sound(app, app.view, false);
            lemma_detail_stays_sound(app, app.view, false);
        },
        ActionModel::ViewDetails | ActionModel::ViewPipelineRuns => {
            lemma_drill_down_is_sound(app);
        },
        ActionModel::SwitchContext(name) => {
            lemma_context_actions_are_sound(app, name);
        },
        ActionModel::DeleteContext => {
            lemma_context_actions_are_sound(app, Seq::empty());
        },
        ActionModel::UpdateSearchInput(c) => {
            lemma_lines_are_sound(app, c);
        },
        ActionModel::UpdateCommandInput(c) => {
            lemma_same_place_is_sound(app, app.apply_key_action(action, viewport_height).0);
        },
        ActionModel::SelectNext(named) => {
            lemma_cursor_moves_are_sound(app, AppModel::rows_shown(named, viewport_height), 0, 0);
        },
        ActionModel::SelectPrevious(_) => {
            lemma_cursor_moves_are_sound(app, 0, 0, 0);
        },
        ActionModel::ScrollDown => {
            lemma_cursor_moves_are_sound(app, 0, 1, 0);
        },
        ActionModel::ScrollUp => {
            lemma_cursor_moves_are_sound(app, 0, -1, 0);
        },
        ActionModel::ScrollLeft => {
            lemma_cursor_moves_are_sound(app, 0, 0, -1);
        },
        ActionModel::ScrollRight => {
            lemma_cursor_moves_are_sound(app, 0, 0, 1);
        },
        ActionModel::Ignored | ActionModel::Quit => {},
        _ => {
            lemma_lines_are_sound(app, ' ');
        },
    }
}

} // verus!
