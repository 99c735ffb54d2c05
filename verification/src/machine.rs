//! The client as a state machine over plain values: for every state and
//! every event, the state that follows and the action that is asked for.

use crate::app::ActionModel;
use crate::app::AppModel;
use crate::app::AppMsgModel;
use crate::app::EventModel;
use crate::app::Key;
use crate::app::KeyCode;
use crate::app::TaskModel;
use crate::app::View;
use crate::compose::blank_draft;
use crate::compose::full_body;
use crate::compose::reply_quote;
use crate::compose::reply_subject;
use crate::compose::reply_to;
use crate::compose::ComposeField;
use crate::compose::ComposeModel;
use crate::config::ConfigModel;
use crate::config_edit::config_of;
use crate::config_edit::draft_of;
use crate::config_edit::erased;
use crate::config_edit::next_in_ring;
use crate::config_edit::prev_in_ring;
use crate::config_edit::toggled;
use crate::config_edit::typed;
use crate::config_edit::ConfigEditModel;
use crate::number::decimal;
use crate::text::is_blank;
use crate::text::trim;
use vstd::prelude::*;
use vstd::view::View as _;

verus! {

/// The text shown for a message whose text has not arrived yet.
pub open spec fn loading_text() -> Seq<char> {
    "Loading..."@
}

/// The state `s` with `t` in the status line.
pub open spec fn with_status(s: AppModel, t: Seq<char>) -> AppModel {
    AppModel { status: t, ..s }
}

/// The state at the start: the list, or the configuration editor if the
/// configuration file was only just created.
pub open spec fn initial(config: ConfigModel, created: bool) -> AppModel {
    AppModel {
        view: if created {
            View::Config
        } else {
            View::List
        },
        return_view: View::List,
        messages: Seq::empty(),
        selected: 0,
        current_header: None,
        current_body: Seq::empty(),
        body_scroll: 0,
        compose: blank_draft(),
        cfg_edit: draft_of(config),
        status: if created {
            "config.toml created. Fill your credentials and press Ctrl+S to save."@
        } else {
            "Starting..."@
        },
        config: config,
    }
}

/// The action at the start: the mailbox is read, unless the configuration
/// has yet to be filled in.
pub open spec fn initial_action(created: bool) -> ActionModel {
    if created {
        ActionModel::Idle
    } else {
        ActionModel::Spawn(TaskModel::RefreshList)
    }
}

/// The state after a background task reported `m`. A list replaces the
/// list that was there, and the selection stays within it; a message text
/// replaces the open message and is shown from its top; a status line
/// replaces the status line.
pub open spec fn after_msg(s: AppModel, m: AppMsgModel) -> AppModel {
    match m {
        AppMsgModel::MailList(list) => AppModel {
            messages: list,
            selected: if list.len() == 0 {
                0
            } else if s.selected < list.len() {
                s.selected
            } else {
                (list.len() - 1) as nat
            },
            status: "Loaded "@ + decimal(list.len()) + " messages"@,
            ..s
        },
        AppMsgModel::MailBody { header, body } => AppModel {
            current_header: Some(header),
            current_body: body,
            body_scroll: 0,
            status: "Mail loaded"@,
            ..s
        },
        AppMsgModel::Status(t) => with_status(s, t),
    }
}

/// The state with the selection one message further down, at most on the
/// last one.
pub open spec fn moved_down(s: AppModel) -> AppModel {
    if s.messages.len() == 0 {
        s
    } else if s.selected + 1 < s.messages.len() {
        AppModel { selected: s.selected + 1, ..s }
    } else {
        AppModel { selected: (s.messages.len() - 1) as nat, ..s }
    }
}

/// The state with the selection one message further up, at most on the
/// first one.
pub open spec fn moved_up(s: AppModel) -> AppModel {
    AppModel {
        selected: if s.selected == 0 {
            0
        } else {
            (s.selected - 1) as nat
        },
        ..s
    }
}

/// The state with the selected message open: its summary as the header, the
/// loading text in place of its text, shown from the top. With nothing
/// selected, nothing changes.
pub open spec fn opened(s: AppModel) -> AppModel {
    if s.selected < s.messages.len() {
        AppModel {
            view: View::Mail,
            current_header: Some(s.messages[s.selected as int]),
            current_body: loading_text(),
            body_scroll: 0,
            ..s
        }
    } else {
        s
    }
}

/// The state with a new, empty draft on the screen.
pub open spec fn composing(s: AppModel) -> AppModel {
    AppModel { compose: blank_draft(), view: View::Compose, status: "Compose"@, ..s }
}

/// Whether the open message can be answered: it has a header, and its text
/// has arrived and is not blank.
pub open spec fn can_reply(s: AppModel) -> bool {
    s.current_header.is_some() && !is_blank(s.current_body) && trim(s.current_body)
        != loading_text()
}

/// The state after a reply was asked for. Where the open message can be
/// answered, the draft is the reply to it and is on the screen with the
/// body in focus; else only the status line says why not.
pub open spec fn replied(s: AppModel) -> AppModel {
    match s.current_header {
        None => with_status(s, "No mail selected"@),
        Some(h) => if is_blank(s.current_body) || trim(s.current_body) == loading_text() {
            with_status(s, "Mail is still loading"@)
        } else {
            AppModel {
                compose: ComposeModel {
                    to: reply_to(h.from),
                    subject: reply_subject(h.subject),
                    body: Seq::empty(),
                    quote: reply_quote(h, s.current_body),
                    focus: ComposeField::Body,
                },
                view: View::Compose,
                status: "Reply"@,
                ..s
            }
        },
    }
}

/// Whether `code` asks to move down.
pub open spec fn is_down(code: KeyCode) -> bool {
    code == KeyCode::Char('j') || code == KeyCode::Down
}

/// Whether `code` asks to move up.
pub open spec fn is_up(code: KeyCode) -> bool {
    code == KeyCode::Char('k') || code == KeyCode::Up
}

/// Whether the key asks to save or send: the letter `s` with the control
/// key held.
pub open spec fn is_commit(code: KeyCode, ctrl: bool) -> bool {
    ctrl && code == KeyCode::Char('s')
}

/// A key in the list of messages.
pub open spec fn list_keys(s: AppModel, code: KeyCode) -> (AppModel, ActionModel) {
    if is_down(code) {
        (moved_down(s), ActionModel::Idle)
    } else if is_up(code) {
        (moved_up(s), ActionModel::Idle)
    } else if code == KeyCode::Enter {
        if s.selected < s.messages.len() {
            (opened(s), ActionModel::Spawn(TaskModel::FetchBody(s.messages[s.selected as int])))
        } else {
            (s, ActionModel::Idle)
        }
    } else if code == KeyCode::Char('o') {
        (s, ActionModel::Spawn(TaskModel::RefreshList))
    } else if code == KeyCode::Char('c') {
        (composing(s), ActionModel::Idle)
    } else {
        (s, ActionModel::Idle)
    }
}

/// A key while a message is read.
pub open spec fn mail_keys(s: AppModel, code: KeyCode) -> (AppModel, ActionModel) {
    if code == KeyCode::Esc {
        (AppModel { view: View::List, status: "Back"@, ..s }, ActionModel::Idle)
    } else if is_down(code) {
        (
            AppModel {
                body_scroll: if s.body_scroll == u16::MAX {
                    u16::MAX
                } else {
                    (s.body_scroll + 1) as u16
                },
                ..s
            },
            ActionModel::Idle,
        )
    } else if is_up(code) {
        (
            AppModel {
                body_scroll: if s.body_scroll == 0 {
                    0
                } else {
                    (s.body_scroll - 1) as u16
                },
                ..s
            },
            ActionModel::Idle,
        )
    } else if code == KeyCode::Char('c') {
        (composing(s), ActionModel::Idle)
    } else if code == KeyCode::Char('r') {
        (replied(s), ActionModel::Idle)
    } else if code == KeyCode::Char('o') {
        (with_status(s, "Refreshing..."@), ActionModel::Spawn(TaskModel::RefreshList))
    } else {
        (s, ActionModel::Idle)
    }
}

/// The field that takes the focus after `f` when the tabulator is pressed.
pub open spec fn tab_from(f: ComposeField) -> ComposeField {
    match f {
        ComposeField::To => ComposeField::Subject,
        ComposeField::Subject => ComposeField::Body,
        ComposeField::Body => ComposeField::To,
    }
}

/// The text of the draft that is in focus.
pub open spec fn focused_text(c: ComposeModel) -> Seq<char> {
    match c.focus {
        ComposeField::To => c.to,
        ComposeField::Subject => c.subject,
        ComposeField::Body => c.body,
    }
}

/// The draft with `t` as the text that is in focus.
pub open spec fn with_focused_text(c: ComposeModel, t: Seq<char>) -> ComposeModel {
    match c.focus {
        ComposeField::To => ComposeModel { to: t, ..c },
        ComposeField::Subject => ComposeModel { subject: t, ..c },
        ComposeField::Body => ComposeModel { body: t, ..c },
    }
}

/// The draft after a key that edits it. The tabulator moves the focus
/// round; the return key moves it on, and in the body is a line feed;
/// backspace takes the last character off the text in focus; a character
/// is appended to it.
pub open spec fn edited(c: ComposeModel, code: KeyCode) -> ComposeModel {
    match code {
        KeyCode::Tab => ComposeModel { focus: tab_from(c.focus), ..c },
        KeyCode::Backspace => if focused_text(c).len() == 0 {
            c
        } else {
            with_focused_text(c, focused_text(c).drop_last())
        },
        KeyCode::Enter => match c.focus {
            ComposeField::To => ComposeModel { focus: ComposeField::Subject, ..c },
            ComposeField::Subject => ComposeModel { focus: ComposeField::Body, ..c },
            ComposeField::Body => ComposeModel { body: c.body.push('\n'), ..c },
        },
        KeyCode::Char(ch) => with_focused_text(c, focused_text(c).push(ch)),
        _ => c,
    }
}

/// Why the draft cannot be sent, if it cannot: the recipient or the subject
/// is blank.
pub open spec fn send_refusal(c: ComposeModel) -> Option<Seq<char>> {
    if is_blank(c.to) {
        Some("To is empty"@)
    } else if is_blank(c.subject) {
        Some("Subject is empty"@)
    } else {
        None
    }
}

/// A key while a message is written. Sending a draft that lacks a recipient
/// or a subject is refused in the status line; one that has both is handed
/// on as it stands and stays on the screen. The escape key discards the
/// draft and goes back to the list.
pub open spec fn compose_keys(s: AppModel, code: KeyCode, ctrl: bool) -> (
    AppModel,
    ActionModel,
) {
    if is_commit(code, ctrl) {
        match send_refusal(s.compose) {
            Some(why) => (with_status(s, why), ActionModel::Idle),
            None => (
                s,
                ActionModel::Spawn(
                    TaskModel::SendMail {
                        to: s.compose.to,
                        subject: s.compose.subject,
                        body: full_body(s.compose),
                    },
                ),
            ),
        }
    } else if code == KeyCode::Esc {
        (
            AppModel {
                view: View::List,
                compose: blank_draft(),
                status: "Compose canceled"@,
                ..s
            },
            ActionModel::Idle,
        )
    } else {
        (AppModel { compose: edited(s.compose, code), ..s }, ActionModel::Idle)
    }
}

/// The draft of the configuration after a key that edits it.
pub open spec fn config_edited(d: ConfigEditModel, code: KeyCode) -> ConfigEditModel {
    match code {
        KeyCode::Tab => ConfigEditModel { focus: next_in_ring(d.focus), ..d },
        KeyCode::BackTab => ConfigEditModel { focus: prev_in_ring(d.focus), ..d },
        KeyCode::Backspace => erased(d),
        KeyCode::Char(ch) => if ch == ' ' {
            toggled(d)
        } else {
            typed(d, ch)
        },
        _ => d,
    }
}

/// A key in the configuration editor. Saving asks for the configuration
/// that the draft stands for to be written, and changes nothing yet; a
/// draft with a port that is no port number is refused in the status line.
/// The escape key discards the edits and goes back to where the editor was
/// opened from; `e` asks for the file to be edited outside.
pub open spec fn config_keys(s: AppModel, code: KeyCode, ctrl: bool) -> (AppModel, ActionModel) {
    if is_commit(code, ctrl) {
        match config_of(s.cfg_edit) {
            Ok(c) => (s, ActionModel::Persist(c)),
            Err(e) => (with_status(s, "Config invalid: "@ + e.text()), ActionModel::Idle),
        }
    } else if code == KeyCode::Esc {
        (
            AppModel {
                view: s.return_view,
                cfg_edit: draft_of(s.config),
                status: "Back"@,
                ..s
            },
            ActionModel::Idle,
        )
    } else if code == KeyCode::Char('e') {
        (s, ActionModel::Edit)
    } else {
        (AppModel { cfg_edit: config_edited(s.cfg_edit, code), ..s }, ActionModel::Idle)
    }
}

/// The state with the configuration editor on the screen, showing the
/// configuration in force, to return to the screen that was active.
pub open spec fn configuring(s: AppModel) -> AppModel {
    AppModel {
        return_view: s.view,
        cfg_edit: draft_of(s.config),
        view: View::Config,
        status: "Config"@,
        ..s
    }
}

/// A key event. Only a press counts. Outside the configuration editor `q`
/// ends the program and `g` opens the editor; every other key goes to the
/// screen that is active.
pub open spec fn after_key(s: AppModel, k: Key) -> (AppModel, ActionModel) {
    if !k.press {
        (s, ActionModel::Idle)
    } else if s.view != View::Config && k.code == KeyCode::Char('q') {
        (s, ActionModel::Quit)
    } else if s.view != View::Config && k.code == KeyCode::Char('g') {
        (configuring(s), ActionModel::Idle)
    } else {
        match s.view {
            View::List => list_keys(s, k.code),
            View::Mail => mail_keys(s, k.code),
            View::Compose => compose_keys(s, k.code, k.ctrl),
            View::Config => config_keys(s, k.code, k.ctrl),
        }
    }
}

/// The state after the configuration was written: the draft becomes the
/// configuration in force, the editor is left, and the mailbox is read
/// again. (A draft that stands for no configuration cannot have been
/// written; it is refused as when saving.)
pub open spec fn after_saved(s: AppModel) -> (AppModel, ActionModel) {
    match config_of(s.cfg_edit) {
        Ok(c) => (
            AppModel { config: c, status: "Saved config.toml"@, view: s.return_view, ..s },
            ActionModel::Spawn(TaskModel::RefreshList),
        ),
        Err(e) => (with_status(s, "Config invalid: "@ + e.text()), ActionModel::Idle),
    }
}

/// The state after the configuration file was edited outside and read
/// again: what it holds is in force and in the draft.
pub open spec fn after_reload(s: AppModel, c: ConfigModel) -> AppModel {
    AppModel { config: c, cfg_edit: draft_of(c), status: "Reloaded config"@, ..s }
}

/// The transition of the client: the state and the action that follow from
/// the state `s` and the event `e`.
pub open spec fn step(s: AppModel, e: EventModel) -> (AppModel, ActionModel) {
    match e {
        EventModel::Key(k) => after_key(s, k),
        EventModel::Resize => (s, ActionModel::Clear),
        EventModel::Msg(m) => (after_msg(s, m), ActionModel::Idle),
        EventModel::ConfigSaved => after_saved(s),
        EventModel::SaveFailed(why) => (with_status(s, "Save error: "@ + why), ActionModel::Idle),
        EventModel::EditorFailed(why) => (
            with_status(s, "Editor error: "@ + why),
            ActionModel::Idle,
        ),
        EventModel::ConfigReloaded(c) => (
            after_reload(s, c),
            ActionModel::Spawn(TaskModel::RefreshList),
        ),
        EventModel::ReloadFailed(why) => (
            with_status(s, "Reload failed: "@ + why),
            ActionModel::Idle,
        ),
    }
}

} // verus!
