//! The decisions of the event cycle: what a key means in each mode, what the
//! dashboard asks of the provider, and how a refresh is taken in.
//!
//! The cycle itself runs outside: it lists the instances once and hands
//! the outcome to [`App::new`], then polls the terminal, hands each key and
//! the time to [`App::handle_events`], performs what the returned [`Effect`]
//! asks, and hands the instances that the provider listed to
//! [`App::refresh_data`].

use vstd::prelude::*;
use vstd::string::StringExecFns;
use crate::cloud::{ClientView, CloudClient};
use crate::config::Config;
use crate::error::{detail_of, GciError};
use crate::instance::Instance;
use crate::ui::{
    details_shown, filter_toggled, help_toggled, input_applied, moved_next, moved_previous,
    popup_closed, search_toggled, selected_id, view_wf, with_instances, Action, Key, KeyCode,
    Mode, UiState, UiView,
};

verus! {

/// The vocabulary of the keyboard: what a key press can mean.
#[derive(Debug, Clone, Copy, PartialEq, Eq, Structural)]
pub enum Command {
    Quit,
    HelpToggle,
    Previous,
    Next,
    Details,
    Close,
    Refresh,
    Start,
    Stop,
    Restart,
    FilterToggle,
    SearchToggle,
    /// The key goes to the active edit buffer.
    Input,
    /// The key means nothing in this mode.
    Ignored,
}

/// What a character means in `Normal` mode.
pub open spec fn normal_char(c: char, ctrl: bool) -> Command {
    if c == 'q' {
        Command::Quit
    } else if c == 'c' && ctrl {
        Command::Quit
    } else if c == '?' {
        Command::HelpToggle
    } else if c == 'k' {
        Command::Previous
    } else if c == 'j' {
        Command::Next
    } else if c == 'r' {
        Command::Refresh
    } else if c == 's' {
        Command::Start
    } else if c == 'S' {
        Command::Stop
    } else if c == 'R' {
        Command::Restart
    } else if c == 'f' {
        Command::FilterToggle
    } else if c == '/' {
        Command::SearchToggle
    } else {
        Command::Ignored
    }
}

/// What a character means while a buffer is edited: the three mode keys
/// and Control-C keep their meaning, every other character is text.
pub open spec fn input_char(c: char, ctrl: bool) -> Command {
    if c == 'c' && ctrl {
        Command::Quit
    } else if c == 'f' {
        Command::FilterToggle
    } else if c == '/' {
        Command::SearchToggle
    } else if c == '?' {
        Command::HelpToggle
    } else {
        Command::Input
    }
}

/// What a character means over the details popup: only the three
/// lifecycle keys are heard.
pub open spec fn details_char(c: char) -> Command {
    if c == 's' {
        Command::Start
    } else if c == 'S' {
        Command::Stop
    } else if c == 'R' {
        Command::Restart
    } else {
        Command::Ignored
    }
}

/// What a key means in a mode. Total: a key without a meaning is `Ignored`.
pub open spec fn command_for(mode: Mode, key: Key) -> Command {
    match mode {
        Mode::Normal => match key.code {
            KeyCode::Char(c) => normal_char(c, key.ctrl),
            KeyCode::Up => Command::Previous,
            KeyCode::Down => Command::Next,
            KeyCode::Enter => Command::Details,
            KeyCode::Esc => Command::Close,
            _ => Command::Ignored,
        },
        Mode::FilterInput | Mode::SearchInput => match key.code {
            KeyCode::Char(c) => input_char(c, key.ctrl),
            KeyCode::Backspace => Command::Input,
            KeyCode::Esc => Command::Close,
            KeyCode::Up => Command::Previous,
            KeyCode::Down => Command::Next,
            _ => Command::Ignored,
        },
        Mode::HelpPopup => match key.code {
            KeyCode::Char(c) => if c == '?' {
                Command::HelpToggle
            } else {
                Command::Ignored
            },
            KeyCode::Esc => Command::Close,
            _ => Command::Ignored,
        },
        Mode::DetailsPopup => match key.code {
            KeyCode::Char(c) => details_char(c),
            KeyCode::Esc => Command::Close,
            _ => Command::Ignored,
        },
    }
}

/// Reads a key in a mode.
pub fn interpret(mode: Mode, key: Key) -> (r: Command)
    ensures
        r == command_for(mode, key),
{
    match mode {
        Mode::Normal => match key.code {
            KeyCode::Char(c) => {
                if c == 'q' {
                    Command::Quit
                } else if c == 'c' && key.ctrl {
                    Command::Quit
                } else if c == '?' {
                    Command::HelpToggle
                } else if c == 'k' {
                    Command::Previous
                } else if c == 'j' {
                    Command::Next
                } else if c == 'r' {
                    Command::Refresh
                } else if c == 's' {
                    Command::Start
                } else if c == 'S' {
                    Command::Stop
                } else if c == 'R' {
                    Command::Restart
                } else if c == 'f' {
                    Command::FilterToggle
                } else if c == '/' {
                    Command::SearchToggle
                } else {
                    Command::Ignored
                }
            },
            KeyCode::Up => Command::Previous,
            KeyCode::Down => Command::Next,
            KeyCode::Enter => Command::Details,
            KeyCode::Esc => Command::Close,
            _ => Command::Ignored,
        },
        Mode::FilterInput | Mode::SearchInput => match key.code {
            KeyCode::Char(c) => {
                if c == 'c' && key.ctrl {
                    Command::Quit
                } else if c == 'f' {
                    Command::FilterToggle
                } else if c == '/' {
                    Command::SearchToggle
                } else if c == '?' {
                    Command::HelpToggle
                } else {
                    Command::Input
                }
            },
            KeyCode::Backspace => Command::Input,
            KeyCode::Esc => Command::Close,
            KeyCode::Up => Command::Previous,
            KeyCode::Down => Command::Next,
            _ => Command::Ignored,
        },
        Mode::HelpPopup => match key.code {
            KeyCode::Char(c) => {
                if c == '?' {
                    Command::HelpToggle
                } else {
                    Command::Ignored
                }
            },
            KeyCode::Esc => Command::Close,
            _ => Command::Ignored,
        },
        Mode::DetailsPopup => match key.code {
            KeyCode::Char(c) => {
                if c == 's' {
                    Command::Start
                } else if c == 'S' {
                    Command::Stop
                } else if c == 'R' {
                    Command::Restart
                } else {
                    Command::Ignored
                }
            },
            KeyCode::Esc => Command::Close,
            _ => Command::Ignored,
        },
    }
}

/// What the dashboard asks of the provider after a key or a tick.
#[derive(Debug)]
pub enum Effect {
    /// Nothing is asked.
    Nothing,
    /// The instances are to be listed anew.
    Refresh,
    /// The action is to be performed on the instance with this identifier;
    /// whether or not it succeeds, the instances are then listed anew.
    Perform(Action, String),
}

/// The model of an [`Effect`].
pub enum EffectView {
    Nothing,
    Refresh,
    Perform(Action, Seq<char>),
}

impl View for Effect {
    type V = EffectView;

    open spec fn view(&self) -> EffectView {
        match self {
            Effect::Nothing => EffectView::Nothing,
            Effect::Refresh => EffectView::Refresh,
            Effect::Perform(action, id) => EffectView::Perform(*action, id@),
        }
    }
}

/// The model of the application.
pub struct AppView {
    pub ui: UiView,
    pub client: ClientView,
    /// The configuration; its refresh interval is in seconds.
    pub config: Config,
    pub should_quit: bool,
    /// The time of the last refresh that succeeded, in milliseconds.
    pub last_refresh: nat,
}

/// The model after a command.
pub open spec fn after_command(v: AppView, command: Command, key: Key) -> AppView {
    match command {
        Command::Quit => AppView { should_quit: true, ..v },
        Command::HelpToggle => AppView { ui: help_toggled(v.ui), ..v },
        Command::Previous => AppView { ui: moved_previous(v.ui), ..v },
        Command::Next => AppView { ui: moved_next(v.ui), ..v },
        Command::Details => AppView { ui: details_shown(v.ui), ..v },
        Command::Close => AppView { ui: popup_closed(v.ui), ..v },
        Command::FilterToggle => AppView { ui: filter_toggled(v.ui), ..v },
        Command::SearchToggle => AppView { ui: search_toggled(v.ui), ..v },
        Command::Input => AppView { ui: input_applied(v.ui, key), ..v },
        Command::Refresh | Command::Start | Command::Stop | Command::Restart | Command::Ignored => v,
    }
}

/// The lifecycle action on the instance under the cursor; nothing over an
/// empty list.
pub open spec fn action_on_selected(ui: UiView, action: Action) -> EffectView {
    match selected_id(ui) {
        Some(id) => EffectView::Perform(action, id),
        None => EffectView::Nothing,
    }
}

/// What a command asks of the provider.
pub open spec fn effect_of(v: AppView, command: Command) -> EffectView {
    match command {
        Command::Refresh => EffectView::Refresh,
        Command::Start => action_on_selected(v.ui, Action::Start),
        Command::Stop => action_on_selected(v.ui, Action::Stop),
        Command::Restart => action_on_selected(v.ui, Action::Restart),
        _ => EffectView::Nothing,
    }
}

/// The model after a key.
pub open spec fn after_key(v: AppView, key: Key) -> AppView {
    after_command(v, command_for(v.ui.mode, key), key)
}

/// What a key asks of the provider.
pub open spec fn effect_of_key(v: AppView, key: Key) -> EffectView {
    effect_of(v, command_for(v.ui.mode, key))
}

/// Whether a refresh is due: the time since the last one has reached the
/// interval.
pub open spec fn refresh_is_due(v: AppView, now_ms: nat) -> bool {
    now_ms - v.last_refresh >= v.config.refresh_interval * 1000
}

/// What one turn of the cycle asks of the provider: what the key asks, if
/// there is a key and it asks anything; otherwise a refresh if one is due.
pub open spec fn effect_of_turn(v: AppView, key: Option<Key>, now_ms: nat) -> EffectView {
    let asked = match key {
        Some(k) => effect_of_key(v, k),
        None => EffectView::Nothing,
    };
    let after = match key {
        Some(k) => after_key(v, k),
        None => v,
    };
    if asked is Nothing && refresh_is_due(after, now_ms) {
        EffectView::Refresh
    } else {
        asked
    }
}

/// The descriptive texts as they are read from the client: where the
/// tool's version is not known, the word `Unknown` stands for it.
pub open spec fn with_client_info(ui: UiView, client: ClientView) -> UiView {
    UiView {
        project_id: client.project_id,
        region: client.region,
        cli_version: match client.cli_version {
            Some(version) => version,
            None => "Unknown"@,
        },
        ..ui
    }
}

/// The cursor after a refresh: where it points at no instance it goes to
/// the first position.
pub open spec fn selection_settled(ui: UiView) -> UiView {
    if ui.instances.len() > 0 && ui.selected_index < ui.instances.len() {
        ui
    } else {
        UiView { selected_index: 0, ..ui }
    }
}

/// The model of an application that has listed nothing yet: an empty
/// dashboard that shows the client's settings.
pub open spec fn started(config: Config, client: ClientView, now_ms: nat) -> AppView {
    AppView {
        ui: with_client_info(crate::ui::empty_ui(), client),
        client: client,
        config: config,
        should_quit: false,
        last_refresh: now_ms,
    }
}

/// The model after the provider has listed `fetched` at time `now_ms`.
pub open spec fn after_refresh(v: AppView, fetched: Seq<Instance>, now_ms: nat) -> AppView {
    AppView {
        ui: with_client_info(selection_settled(with_instances(v.ui, fetched)), v.client),
        last_refresh: now_ms,
        ..v
    }
}

/// The application: configuration, client settings, dashboard state, and
/// the two values that the cycle turns on.
pub struct App {
    config: Config,
    cloud_client: CloudClient,
    ui_state: UiState,
    should_quit: bool,
    last_refresh: u64,
}

impl View for App {
    type V = AppView;

    closed spec fn view(&self) -> AppView {
        AppView {
            ui: self.ui_state@,
            client: self.cloud_client@,
            config: self.config,
            should_quit: self.should_quit,
            last_refresh: self.last_refresh as nat,
        }
    }
}

impl App {
    /// The application is well formed: its dashboard state is, and the
    /// refresh interval is positive.
    pub closed spec fn wf(&self) -> bool {
        self.ui_state.wf() && self.config.refresh_interval > 0
    }

    /// A well-formed application has a well-formed model.
    pub proof fn lemma_wf(&self)
        requires
            self.wf(),
        ensures
            view_wf(self@.ui),
            self@.config.refresh_interval > 0,
    {
    }

    /// Sets the application up at time `now_ms` from the outcome of the
    /// first listing. There is no application without a first listing: a
    /// failure to list is handed back as it is, and so no cycle starts on
    /// a dashboard without valid state. A refresh interval of zero is
    /// rejected before the listing is looked at. Otherwise the application
    /// shows the client's settings and has taken the listed instances in
    /// as a refresh does.
    pub fn new(
        config: Config,
        cloud_client: CloudClient,
        first: Result<Vec<Instance>, GciError>,
        now_ms: u64,
    ) -> (r: Result<App, GciError>)
        ensures
            r is Ok == (config.valid() && first is Ok),
            !config.valid() ==> r is Err && r->Err_0 is InvalidConfiguration && detail_of(r->Err_0)
                == "the refresh interval must be positive"@,
            config.valid() ==> (first matches Err(e) ==> r == Err::<App, GciError>(e)),
            r is Ok ==> r->Ok_0.wf() && r->Ok_0@ == after_refresh(
                started(config, cloud_client@, now_ms as nat),
                first->Ok_0@,
                now_ms as nat,
            ),
    {
        if config.refresh_interval == 0 {
            return Err(
                GciError::InvalidConfiguration(
                    String::from_str("the refresh interval must be positive"),
                ),
            );
        }
        let mut app = App {
            config,
            cloud_client,
            ui_state: UiState::new(),
            should_quit: false,
            last_refresh: now_ms,
        };
        app.update_ui_info();
        match app.refresh_data(first, now_ms) {
            Ok(_) => Ok(app),
            Err(e) => Err(e),
        }
    }

    /// Whether the quit key was pressed.
    pub fn should_quit(&self) -> (r: bool)
        ensures
            r == self@.should_quit,
    {
        self.should_quit
    }

    /// The dashboard state, for drawing.
    pub fn ui_state(&self) -> (r: &UiState)
        ensures
            r@ == self@.ui,
            self.wf() ==> r.wf(),
    {
        &self.ui_state
    }

    /// The client's settings.
    pub fn cloud_client(&self) -> (r: &CloudClient)
        ensures
            r@ == self@.client,
    {
        &self.cloud_client
    }

    /// The configuration.
    pub fn config(&self) -> (r: &Config)
        ensures
            *r == self@.config,
    {
        &self.config
    }

    /// Whether a refresh is due at time `now_ms`.
    pub fn refresh_due(&self, now_ms: u64) -> (r: bool)
        ensures
            r == refresh_is_due(self@, now_ms as nat),
    {
        if now_ms < self.last_refresh {
            false
        } else {
            let elapsed: u64 = now_ms - self.last_refresh;
            elapsed / 1000 >= self.config.refresh_interval
        }
    }

    /// Takes one turn of the cycle at time `now_ms`: interprets the key, if
    /// one was pressed, and says what to ask of the provider.
    pub fn handle_events(&mut self, key: Option<Key>, now_ms: u64) -> (r: Effect)
        requires
            old(self).wf(),
        ensures
            final(self).wf(),
            final(self)@ == (match key {
                Some(k) => after_key(old(self)@, k),
                None => old(self)@,
            }),
            r@ == effect_of_turn(old(self)@, key, now_ms as nat),
    {
        let asked = match key {
            Some(k) => self.handle_key_event(k),
            None => Effect::Nothing,
        };
        match asked {
            Effect::Nothing => {
                if self.refresh_due(now_ms) {
                    Effect::Refresh
                } else {
                    Effect::Nothing
                }
            },
            other => other,
        }
    }

    /// Interprets one key in the active mode, changes the state as the key
    /// says, and returns what the key asks of the provider.
    pub fn handle_key_event(&mut self, key: Key) -> (r: Effect)
        requires
            old(self).wf(),
        ensures
            final(self).wf(),
            final(self)@ == after_key(old(self)@, key),
            r@ == effect_of_key(old(self)@, key),
    {
        let command = interpret(self.ui_state.mode(), key);
        match command {
            Command::Quit => {
                self.should_quit = true;
                Effect::Nothing
            },
            Command::HelpToggle => {
                self.ui_state.toggle_help();
                Effect::Nothing
            },
            Command::Previous => {
                self.ui_state.previous_item();
                Effect::Nothing
            },
            Command::Next => {
                self.ui_state.next_item();
                Effect::Nothing
            },
            Command::Details => {
                self.ui_state.show_details();
                Effect::Nothing
            },
            Command::Close => {
                self.ui_state.close_popup();
                Effect::Nothing
            },
            Command::FilterToggle => {
                self.ui_state.toggle_filter_mode();
                Effect::Nothing
            },
            Command::SearchToggle => {
                self.ui_state.toggle_search_mode();
                Effect::Nothing
            },
            Command::Input => {
                self.ui_state.handle_input(key);
                Effect::Nothing
            },
            Command::Refresh => Effect::Refresh,
            Command::Start => self.act_on_selected(Action::Start),
            Command::Stop => self.act_on_selected(Action::Stop),
            Command::Restart => self.act_on_selected(Action::Restart),
            Command::Ignored => Effect::Nothing,
        }
    }

    fn act_on_selected(&self, action: Action) -> (r: Effect)
        requires
            self.wf(),
        ensures
            r@ == action_on_selected(self@.ui, action),
    {
        match self.ui_state.selected_instance_id() {
            Some(id) => Effect::Perform(action, id),
            None => Effect::Nothing,
        }
    }

    /// Takes in the outcome of a lifecycle action. Whether the action
    /// succeeded or failed, the instances are to be listed anew; a failure
    /// is handed back so that it can be reported.
    pub fn perform_action(&self, outcome: Result<(), GciError>) -> (r: (Effect, Option<GciError>))
        ensures
            r.0@ is Refresh,
            outcome is Ok ==> r.1 is None,
            outcome matches Err(e) ==> r.1 == Some(e),
    {
        match outcome {
            Ok(_) => (Effect::Refresh, None),
            Err(e) => (Effect::Refresh, Some(e)),
        }
    }

    /// Takes in the outcome of listing the instances at time `now_ms`. A
    /// listing replaces the instances, settles the cursor, and reads the
    /// descriptive texts anew. A failure is handed back and leaves the
    /// application exactly as it was.
    pub fn refresh_data(&mut self, listing: Result<Vec<Instance>, GciError>, now_ms: u64) -> (r:
        Result<(), GciError>)
        requires
            old(self).wf(),
        ensures
            final(self).wf(),
            listing matches Ok(fetched) ==> r is Ok && final(self)@ == after_refresh(
                old(self)@,
                fetched@,
                now_ms as nat,
            ),
            listing matches Err(e) ==> r == Err::<(), GciError>(e) && *final(self) == *old(self),
    {
        match listing {
            Ok(fetched) => {
                self.ui_state.update_instances(fetched);
                if !self.ui_state.has_valid_selection() {
                    self.ui_state.reset_selection();
                }
                self.last_refresh = now_ms;
                self.update_ui_info();
                Ok(())
            },
            Err(e) => Err(e),
        }
    }

    /// Reads the descriptive texts from the client's settings.
    pub fn update_ui_info(&mut self)
        requires
            old(self).wf(),
        ensures
            final(self).wf(),
            final(self)@ == (AppView {
                ui: with_client_info(old(self)@.ui, old(self)@.client),
                ..old(self)@
            }),
    {
        let project_id = String::from_str(self.cloud_client.get_project_id());
        let region = String::from_str(self.cloud_client.get_region());
        let cli_version = match self.cloud_client.get_cli_version() {
            Ok(version) => version,
            Err(_) => String::from_str("Unknown"),
        };
        self.ui_state.update_cloud_info(project_id, region, cli_version);
    }
}

} // verus!
