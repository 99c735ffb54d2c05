//! The interactive engine: the application state, the events that reach it,
//! and the transition that each event causes. Nothing here waits or talks
//! to a server: a transition returns the action that the caller is to carry
//! out, and what comes of it arrives as a later event.

use crate::compose::blank_draft;
use crate::compose::compose_full_body;
use crate::compose::extract_reply_to;
use crate::compose::make_reply_quote;
use crate::compose::make_reply_subject;
use crate::compose::ComposeModel;
use crate::config::Config;
use crate::config::ConfigModel;
use crate::config_edit::config_of;
use crate::config_edit::next_field;
use crate::config_edit::prev_field;
use crate::config_edit::ConfigEditModel;
use crate::laws::law_selection_stays_in_list;
use crate::machine::after_key;
use crate::machine::after_msg;
use crate::machine::compose_keys;
use crate::machine::config_keys;
use crate::machine::initial;
use crate::machine::initial_action;
use crate::machine::list_keys;
use crate::machine::mail_keys;
use crate::machine::replied;
use crate::machine::step;
use crate::mail::summaries_model;
use crate::mail::MessageSummary;
use crate::mail::SummaryModel;
use crate::number::push_decimal;
use crate::number::PortError;
use crate::text::is_blank_str;
use crate::text::pop_char;
use crate::text::push_char;
use crate::text::trim_str;
use vstd::prelude::*;
use vstd::view::View as _;

pub use crate::compose::ComposeField;
pub use crate::compose::ComposeState;
pub use crate::config_edit::ConfigEditState;
pub use crate::config_edit::ConfigField;

verus! {

/// The screen that is active.
#[derive(Clone, Copy, PartialEq, Eq, Structural, Debug)]
pub enum View {
    List,
    Mail,
    Compose,
    Config,
}

/// Everything the client shows and edits.
#[derive(Debug, PartialEq, Eq)]
pub struct App {
    pub view: View,
    /// The screen to go back to when the configuration editor is left.
    pub return_view: View,
    pub messages: Vec<MessageSummary>,
    pub selected: usize,
    pub current_header: Option<MessageSummary>,
    pub current_body: String,
    pub body_scroll: u16,
    pub compose: ComposeState,
    pub cfg_edit: ConfigEditState,
    pub status: String,
    pub config: Config,
}

/// What an `App` holds, as plain values.
pub struct AppModel {
    pub view: View,
    pub return_view: View,
    pub messages: Seq<SummaryModel>,
    pub selected: nat,
    pub current_header: Option<SummaryModel>,
    pub current_body: Seq<char>,
    pub body_scroll: u16,
    pub compose: ComposeModel,
    pub cfg_edit: ConfigEditModel,
    pub status: Seq<char>,
    pub config: ConfigModel,
}

/// The model of a summary that may be absent.
pub open spec fn header_model(h: Option<MessageSummary>) -> Option<SummaryModel> {
    match h {
        Some(m) => Some(m@),
        None => None,
    }
}

impl vstd::view::View for App {
    type V = AppModel;

    open spec fn view(&self) -> AppModel {
        AppModel {
            view: self.view,
            return_view: self.return_view,
            messages: summaries_model(self.messages@),
            selected: self.selected as nat,
            current_header: header_model(self.current_header),
            current_body: self.current_body@,
            body_scroll: self.body_scroll,
            compose: self.compose@,
            cfg_edit: self.cfg_edit@,
            status: self.status@,
            config: self.config@,
        }
    }
}

impl AppModel {
    /// The selection points into the list, or is 0 where the list is empty.
    pub open spec fn wf(self) -> bool {
        if self.messages.len() == 0 {
            self.selected == 0
        } else {
            self.selected < self.messages.len()
        }
    }
}

/// A key of the keyboard, as far as the client tells keys apart.
#[derive(Clone, Copy, PartialEq, Eq, Structural, Debug)]
pub enum KeyCode {
    Char(char),
    Enter,
    Esc,
    Tab,
    BackTab,
    Backspace,
    Up,
    Down,
    Other,
}

/// A keyboard event.
#[derive(Clone, Copy, PartialEq, Eq, Structural, Debug)]
pub struct Key {
    pub code: KeyCode,
    /// Whether the control key was held.
    pub ctrl: bool,
    /// Whether the key went down; a release or a repeat is no press.
    pub press: bool,
}

/// What a finished background task reports.
#[derive(Debug, PartialEq, Eq)]
pub enum AppMsg {
    /// The summaries of the mailbox.
    MailList(Vec<MessageSummary>),
    /// The text of one message, with the summary it was asked for.
    MailBody { header: MessageSummary, body: String },
    /// A line for the status bar.
    Status(String),
}

/// What an `AppMsg` holds, as plain values.
pub enum AppMsgModel {
    MailList(Seq<SummaryModel>),
    MailBody { header: SummaryModel, body: Seq<char> },
    Status(Seq<char>),
}

impl vstd::view::View for AppMsg {
    type V = AppMsgModel;

    open spec fn view(&self) -> AppMsgModel {
        match self {
            AppMsg::MailList(list) => AppMsgModel::MailList(summaries_model(list@)),
            AppMsg::MailBody { header, body } => AppMsgModel::MailBody {
                header: header@,
                body: body@,
            },
            AppMsg::Status(s) => AppMsgModel::Status(s@),
        }
    }
}

/// Something that happened and that the state must take note of.
#[derive(Debug, PartialEq, Eq)]
pub enum Event {
    /// A key event.
    Key(Key),
    /// The terminal changed its size.
    Resize,
    /// A background task reported.
    Msg(AppMsg),
    /// The configuration asked to be saved was written.
    ConfigSaved,
    /// The configuration could not be written.
    SaveFailed(String),
    /// The editor could not be run, or ended in failure.
    EditorFailed(String),
    /// The editor ended and the file was read again.
    ConfigReloaded(Config),
    /// The editor ended, but the file could not be read again.
    ReloadFailed(String),
}

/// What an `Event` holds, as plain values.
pub enum EventModel {
    Key(Key),
    Resize,
    Msg(AppMsgModel),
    ConfigSaved,
    SaveFailed(Seq<char>),
    EditorFailed(Seq<char>),
    ConfigReloaded(ConfigModel),
    ReloadFailed(Seq<char>),
}

impl vstd::view::View for Event {
    type V = EventModel;

    open spec fn view(&self) -> EventModel {
        match self {
            Event::Key(k) => EventModel::Key(*k),
            Event::Resize => EventModel::Resize,
            Event::Msg(m) => EventModel::Msg(m@),
            Event::ConfigSaved => EventModel::ConfigSaved,
            Event::SaveFailed(e) => EventModel::SaveFailed(e@),
            Event::EditorFailed(e) => EventModel::EditorFailed(e@),
            Event::ConfigReloaded(c) => EventModel::ConfigReloaded(c@),
            Event::ReloadFailed(e) => EventModel::ReloadFailed(e@),
        }
    }
}

/// Work for a mail server, to be done away from the screen.
#[derive(Debug, PartialEq, Eq)]
pub enum Task {
    /// Read the summaries of the mailbox.
    RefreshList,
    /// Read the text of the message with this summary.
    FetchBody(MessageSummary),
    /// Send a message.
    SendMail { to: String, subject: String, body: String },
}

/// What a `Task` holds, as plain values.
pub enum TaskModel {
    RefreshList,
    FetchBody(SummaryModel),
    SendMail { to: Seq<char>, subject: Seq<char>, body: Seq<char> },
}

impl vstd::view::View for Task {
    type V = TaskModel;

    open spec fn view(&self) -> TaskModel {
        match self {
            Task::RefreshList => TaskModel::RefreshList,
            Task::FetchBody(h) => TaskModel::FetchBody(h@),
            Task::SendMail { to, subject, body } => TaskModel::SendMail {
                to: to@,
                subject: subject@,
                body: body@,
            },
        }
    }
}

/// What the caller is to do after a transition.
#[derive(Debug, PartialEq, Eq)]
pub enum Action {
    /// Nothing.
    Idle,
    /// End the program.
    Quit,
    /// Clear the screen before the next frame.
    Clear,
    /// Start a background task, with the configuration as it is now.
    Spawn(Task),
    /// Write this configuration to its file, and report `ConfigSaved` or
    /// `SaveFailed`.
    Persist(Config),
    /// Run the editor on the configuration file, and report `EditorFailed`,
    /// `ConfigReloaded` or `ReloadFailed`.
    Edit,
}

/// What an `Action` holds, as plain values.
pub enum ActionModel {
    Idle,
    Quit,
    Clear,
    Spawn(TaskModel),
    Persist(ConfigModel),
    Edit,
}

impl vstd::view::View for Action {
    type V = ActionModel;

    open spec fn view(&self) -> ActionModel {
        match self {
            Action::Idle => ActionModel::Idle,
            Action::Quit => ActionModel::Quit,
            Action::Clear => ActionModel::Clear,
            Action::Spawn(t) => ActionModel::Spawn(t@),
            Action::Persist(c) => ActionModel::Persist(c@),
            Action::Edit => ActionModel::Edit,
        }
    }
}

/// One step towards the start of a list, never below zero.
pub fn clamp_dec(v: usize) -> (r: usize)
    ensures
        r == if v == 0 {
            0
        } else {
            v - 1
        },
{
    if v == 0 {
        0
    } else {
        v - 1
    }
}

impl App {
    /// The state at the start, and the action to start with.
    pub fn new(config: Config, created: bool) -> (r: (App, Action))
        ensures
            r.0@ == initial(config@, created),
            r.1@ == initial_action(created),
            r.0@.wf(),
    {
        let app = App {
            view: if created {
                View::Config
            } else {
                View::List
            },
            return_view: View::List,
            messages: Vec::new(),
            selected: 0,
            current_header: None,
            current_body: String::new(),
            body_scroll: 0,
            compose: ComposeState::new(),
            cfg_edit: ConfigEditState::from_config(&config),
            status: if created {
                "config.toml created. Fill your credentials and press Ctrl+S to save.".to_owned()
            } else {
                "Starting...".to_owned()
            },
            config: config,
        };
        let act = if created {
            Action::Idle
        } else {
            Action::Spawn(Task::RefreshList)
        };
        assert(app@.messages =~= Seq::empty());
        (app, act)
    }
}

/// Takes note of what a background task reported.
pub fn apply_msg(app: &mut App, msg: AppMsg)
    ensures
        final(app)@ == after_msg(old(app)@, msg@),
{
    match msg {
        AppMsg::MailList(list) => {
            let n = list.len();
            app.messages = list;
            if n == 0 {
                app.selected = 0;
            } else if app.selected >= n {
                app.selected = n - 1;
            }
            let mut status = "Loaded ".to_owned();
            push_decimal(&mut status, n as u64);
            status.append(" messages");
            app.status = status;
        },
        AppMsg::MailBody { header, body } => {
            app.current_header = Some(header);
            app.current_body = body;
            app.body_scroll = 0;
            app.status = "Mail loaded".to_owned();
        },
        AppMsg::Status(s) => {
            app.status = s;
        },
    }
}

/// Puts a new, empty draft in place of the draft.
pub fn reset_compose_new(app: &mut App)
    ensures
        final(app)@ == (AppModel { compose: blank_draft(), ..old(app)@ }),
{
    app.compose = ComposeState::new();
}

/// Prepares the reply to the open message and shows it, or says in the
/// status line why there is nothing to reply to.
pub fn start_reply(app: &mut App)
    ensures
        final(app)@ == replied(old(app)@),
{
    let header = match &app.current_header {
        Some(h) => h.clone(),
        None => {
            app.status = "No mail selected".to_owned();
            return ;
        },
    };
    let body = trim_str(app.current_body.as_str());
    let loading = "Loading...".to_owned();
    if body.as_str().is_empty() || body == loading {
        app.status = "Mail is still loading".to_owned();
        return ;
    }
    app.compose.to = extract_reply_to(header.from.as_str());
    app.compose.subject = make_reply_subject(header.subject.as_str());
    app.compose.body = String::new();
    app.compose.quote = make_reply_quote(&header, app.current_body.as_str());
    app.compose.focus = ComposeField::Body;
    app.view = View::Compose;
    app.status = "Reply".to_owned();
}

/// A key in the list of messages.
pub fn handle_list_keys(app: &mut App, code: KeyCode) -> (act: Action)
    ensures
        (final(app)@, act@) == list_keys(old(app)@, code),
{
    if code == KeyCode::Char('j') || code == KeyCode::Down {
        let n = app.messages.len();
        if n > 0 {
            app.selected = if app.selected < n - 1 {
                app.selected + 1
            } else {
                n - 1
            };
        }
        Action::Idle
    } else if code == KeyCode::Char('k') || code == KeyCode::Up {
        app.selected = clamp_dec(app.selected);
        Action::Idle
    } else if code == KeyCode::Enter {
        if app.selected < app.messages.len() {
            let m = app.messages[app.selected].clone();
            app.view = View::Mail;
            app.current_header = Some(m.clone());
            app.current_body = "Loading...".to_owned();
            app.body_scroll = 0;
            Action::Spawn(Task::FetchBody(m))
        } else {
            Action::Idle
        }
    } else if code == KeyCode::Char('o') {
        Action::Spawn(Task::RefreshList)
    } else if code == KeyCode::Char('c') {
        reset_compose_new(app);
        app.view = View::Compose;
        app.status = "Compose".to_owned();
        Action::Idle
    } else {
        Action::Idle
    }
}

/// A key while a message is read.
pub fn handle_mail_keys(app: &mut App, code: KeyCode) -> (act: Action)
    ensures
        (final(app)@, act@) == mail_keys(old(app)@, code),
{
    if code == KeyCode::Esc {
        app.view = View::List;
        app.status = "Back".to_owned();
        Action::Idle
    } else if code == KeyCode::Char('j') || code == KeyCode::Down {
        if app.body_scroll < u16::MAX {
            app.body_scroll = app.body_scroll + 1;
        }
        Action::Idle
    } else if code == KeyCode::Char('k') || code == KeyCode::Up {
        if app.body_scroll > 0 {
            app.body_scroll = app.body_scroll - 1;
        }
        Action::Idle
    } else if code == KeyCode::Char('c') {
        reset_compose_new(app);
        app.view = View::Compose;
        app.status = "Compose".to_owned();
        Action::Idle
    } else if code == KeyCode::Char('r') {
        start_reply(app);
        Action::Idle
    } else if code == KeyCode::Char('o') {
        app.status = "Refreshing...".to_owned();
        Action::Spawn(Task::RefreshList)
    } else {
        Action::Idle
    }
}

/// A key while a message is written.
pub fn handle_compose_keys(app: &mut App, code: KeyCode, ctrl: bool) -> (act: Action)
    ensures
        (final(app)@, act@) == compose_keys(old(app)@, code, ctrl),
{
    if ctrl && code == KeyCode::Char('s') {
        if is_blank_str(app.compose.to.as_str()) {
            app.status = "To is empty".to_owned();
            return Action::Idle;
        }
        if is_blank_str(app.compose.subject.as_str()) {
            app.status = "Subject is empty".to_owned();
            return Action::Idle;
        }
        let body = compose_full_body(&app.compose);
        return Action::Spawn(
            Task::SendMail {
                to: app.compose.to.clone(),
                subject: app.compose.subject.clone(),
                body: body,
            },
        );
    }
    match code {
        KeyCode::Esc => {
            app.view = View::List;
            app.compose = ComposeState::new();
            app.status = "Compose canceled".to_owned();
        },
        KeyCode::Tab => {
            app.compose.focus = match app.compose.focus {
                ComposeField::To => ComposeField::Subject,
                ComposeField::Subject => ComposeField::Body,
                ComposeField::Body => ComposeField::To,
            };
        },
        KeyCode::Backspace => match app.compose.focus {
            ComposeField::To => {
                pop_char(&mut app.compose.to);
            },
            ComposeField::Subject => {
                pop_char(&mut app.compose.subject);
            },
            ComposeField::Body => {
                pop_char(&mut app.compose.body);
            },
        },
        KeyCode::Enter => match app.compose.focus {
            ComposeField::To => {
                app.compose.focus = ComposeField::Subject;
            },
            ComposeField::Subject => {
                app.compose.focus = ComposeField::Body;
            },
            ComposeField::Body => {
                push_char(&mut app.compose.body, '\n');
            },
        },
        KeyCode::Char(ch) => match app.compose.focus {
            ComposeField::To => push_char(&mut app.compose.to, ch),
            ComposeField::Subject => push_char(&mut app.compose.subject, ch),
            ComposeField::Body => push_char(&mut app.compose.body, ch),
        },
        _ => {},
    }
    Action::Idle
}

/// Makes the draft of the configuration the configuration in force, if it
/// stands for one; else says why not and changes nothing.
pub fn apply_cfg_edit(app: &mut App) -> (r: Result<(), PortError>)
    ensures
        match config_of(old(app)@.cfg_edit) {
            Ok(c) => r.is_ok() && final(app)@ == (AppModel { config: c, ..old(app)@ }),
            Err(e) => r == Err::<(), PortError>(e) && final(app)@ == old(app)@,
        },
{
    match app.cfg_edit.to_config() {
        Ok(c) => {
            app.config = c;
            Ok(())
        },
        Err(e) => Err(e),
    }
}

/// The line that says why the draft of the configuration is refused.
fn invalid_config_status(e: PortError) -> (s: String)
    ensures
        s@ == "Config invalid: "@ + e.text(),
{
    let mut s = "Config invalid: ".to_owned();
    s.append(e.message().as_str());
    s
}

/// A key in the configuration editor.
pub fn handle_config_keys(app: &mut App, code: KeyCode, ctrl: bool) -> (act: Action)
    ensures
        (final(app)@, act@) == config_keys(old(app)@, code, ctrl),
{
    if ctrl && code == KeyCode::Char('s') {
        return match app.cfg_edit.to_config() {
            Ok(c) => Action::Persist(c),
            Err(e) => {
                app.status = invalid_config_status(e);
                Action::Idle
            },
        };
    }
    match code {
        KeyCode::Esc => {
            app.view = app.return_view;
            app.cfg_edit = ConfigEditState::from_config(&app.config);
            app.status = "Back".to_owned();
        },
        KeyCode::Tab => {
            app.cfg_edit.focus = next_field(app.cfg_edit.focus);
        },
        KeyCode::BackTab => {
            app.cfg_edit.focus = prev_field(app.cfg_edit.focus);
        },
        KeyCode::Backspace => {
            app.cfg_edit.erase();
        },
        KeyCode::Char(ch) => {
            if ch == 'e' {
                return Action::Edit;
            } else if ch == ' ' {
                app.cfg_edit.toggle();
            } else {
                app.cfg_edit.type_char(ch);
            }
        },
        _ => {},
    }
    Action::Idle
}

/// A key event.
pub fn handle_key(app: &mut App, key: Key) -> (act: Action)
    ensures
        (final(app)@, act@) == after_key(old(app)@, key),
{
    if !key.press {
        return Action::Idle;
    }
    if app.view != View::Config && key.code == KeyCode::Char('q') {
        return Action::Quit;
    }
    if app.view != View::Config && key.code == KeyCode::Char('g') {
        app.return_view = app.view;
        app.cfg_edit = ConfigEditState::from_config(&app.config);
        app.view = View::Config;
        app.status = "Config".to_owned();
        return Action::Idle;
    }
    match app.view {
        View::List => handle_list_keys(app, key.code),
        View::Mail => handle_mail_keys(app, key.code),
        View::Compose => handle_compose_keys(app, key.code, key.ctrl),
        View::Config => handle_config_keys(app, key.code, key.ctrl),
    }
}

/// `prefix` followed by `why`.
fn failure_status(prefix: &str, why: &str) -> (s: String)
    ensures
        s@ == prefix@ + why@,
{
    let mut s = prefix.to_owned();
    s.append(why);
    s
}

/// The transition of the client: changes the state as the event `ev` asks,
/// and returns the action that the caller is to carry out.
pub fn dispatch(app: &mut App, ev: Event) -> (act: Action)
    ensures
        (final(app)@, act@) == step(old(app)@, ev@),
        old(app)@.wf() ==> final(app)@.wf(),
{
    proof {
        if old(app)@.wf() {
            law_selection_stays_in_list(old(app)@, ev@);
        }
    }
    match ev {
        Event::Key(k) => handle_key(app, k),
        Event::Resize => Action::Clear,
        Event::Msg(m) => {
            apply_msg(app, m);
            Action::Idle
        },
        Event::ConfigSaved => match apply_cfg_edit(app) {
            Ok(_) => {
                app.status = "Saved config.toml".to_owned();
                app.view = app.return_view;
                Action::Spawn(Task::RefreshList)
            },
            Err(e) => {
                app.status = invalid_config_status(e);
                Action::Idle
            },
        },
        Event::SaveFailed(why) => {
            app.status = failure_status("Save error: ", why.as_str());
            Action::Idle
        },
        Event::EditorFailed(why) => {
            app.status = failure_status("Editor error: ", why.as_str());
            Action::Idle
        },
        Event::ConfigReloaded(c) => {
            app.cfg_edit = ConfigEditState::from_config(&c);
            app.config = c;
            app.status = "Reloaded config".to_owned();
            Action::Spawn(Task::RefreshList)
        },
        Event::ReloadFailed(why) => {
            app.status = failure_status("Reload failed: ", why.as_str());
            Action::Idle
        },
    }
}

} // verus!
