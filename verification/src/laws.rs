//! What holds of the client in every state: invariants of the state machine
//! and properties of the rules for replies, sending and saving.

use crate::app::ActionModel;
use crate::app::AppModel;
use crate::app::AppMsgModel;
use crate::app::EventModel;
use crate::app::Key;
use crate::app::KeyCode;
use crate::app::TaskModel;
use crate::app::View;
use crate::compose::blank_draft;
use crate::compose::has_re_prefix;
use crate::compose::reply_subject;
use crate::config::ConfigModel;
use crate::config_edit::config_of;
use crate::config_edit::draft_of;
use crate::config_edit::law_draft_round_trip;
use crate::config_edit::ConfigEditModel;
use crate::config_edit::ConfigField;
use crate::machine::after_msg;
use crate::machine::can_reply;
use crate::machine::initial;
use crate::machine::is_commit;
use crate::machine::is_down;
use crate::machine::is_up;
use crate::machine::loading_text;
use crate::machine::opened;
use crate::machine::replied;
use crate::machine::send_refusal;
use crate::machine::step;
use crate::machine::with_status;
use crate::number::digit_value;
use crate::number::is_digit;
use crate::number::decimal;
use crate::number::parse_port;
use crate::number::read_digits;
use crate::number::PortError;
use crate::text::is_blank;
use crate::text::lead;
use crate::text::lemma_lead;
use crate::text::lemma_lead_at;
use crate::text::lemma_trail;
use crate::text::lemma_trail_at;
use crate::text::trim;
use crate::text::CharClass;
use vstd::prelude::*;
use vstd::view::View as _;

verus! {

/// The state after the events `events` have reached the state `s` one
/// after the other.
pub open spec fn after_all(s: AppModel, events: Seq<EventModel>) -> AppModel
    decreases events.len(),
{
    if events.len() == 0 {
        s
    } else {
        step(after_all(s, events.drop_last()), events.last()).0
    }
}

/// The client starts with a selection that fits its (empty) list.
pub proof fn law_initial_selection(config: ConfigModel, created: bool)
    ensures
        initial(config, created).wf(),
        initial(config, created).selected == 0,
{
}

/// No event takes the selection out of the list: after any event the
/// selection points at a message, or is 0 where there is none.
pub proof fn law_selection_stays_in_list(s: AppModel, e: EventModel)
    requires
        s.wf(),
    ensures
        step(s, e).0.wf(),
{
}

/// After any sequence of events, moves up and down among them, the
/// selection is within the list, and 0 on an empty list.
pub proof fn law_selection_after_all(s: AppModel, events: Seq<EventModel>)
    requires
        s.wf(),
    ensures
        after_all(s, events).wf(),
        after_all(s, events).messages.len() > 0 ==> 0 <= after_all(s, events).selected
            < after_all(s, events).messages.len(),
        after_all(s, events).messages.len() == 0 ==> after_all(s, events).selected == 0,
    decreases events.len(),
{
    if events.len() > 0 {
        law_selection_after_all(s, events.drop_last());
        law_selection_stays_in_list(after_all(s, events.drop_last()), events.last());
    }
}

/// A move up or down in the list changes the selection by at most one and
/// nothing else.
pub proof fn law_moves_change_selection_only(s: AppModel, code: KeyCode)
    requires
        s.wf(),
        s.view == View::List,
        is_down(code) || is_up(code),
    ensures
        ({
            let k = Key { code: code, ctrl: false, press: true };
            let t = step(s, EventModel::Key(k)).0;
            &&& t == (AppModel { selected: t.selected, ..s })
            &&& s.selected - 1 <= t.selected <= s.selected + 1
            &&& step(s, EventModel::Key(k)).1 == ActionModel::Idle
        }),
{
}

/// Opening the selected message puts its summary, the loading text and the
/// top of the page in place of whatever message was open: two states that
/// agree on the list and the selection have the same open message after.
pub proof fn law_open_replaces_open_message(s1: AppModel, s2: AppModel)
    requires
        s1.messages == s2.messages,
        s1.selected == s2.selected,
        s1.selected < s1.messages.len(),
    ensures
        opened(s1).current_header == Some(s1.messages[s1.selected as int]),
        opened(s1).current_body == loading_text(),
        opened(s1).body_scroll == 0,
        opened(s1).view == View::Mail,
        opened(s2).current_header == opened(s1).current_header,
        opened(s2).current_body == opened(s1).current_body,
        opened(s2).body_scroll == opened(s1).body_scroll,
{
}

/// The text of a message that arrives replaces the open message whole and
/// is shown from its top, whatever was open and however far it was
/// scrolled.
pub proof fn law_arrival_replaces_open_message(s: AppModel, m: AppMsgModel)
    requires
        m is MailBody,
    ensures
        after_msg(s, m).current_header == Some(m->header),
        after_msg(s, m).current_body == m->body,
        after_msg(s, m).body_scroll == 0,
{
}

/// A list that arrives replaces the list whole: what was listed before has
/// no part in what is listed after, and the selection is within the new
/// list whatever it was.
pub proof fn law_arrival_replaces_list(s: AppModel, m: AppMsgModel)
    requires
        m is MailList,
    ensures
        after_msg(s, m).messages == m->MailList_0,
        after_msg(s, m).wf(),
{
}

/// What a background task reports never touches the two drafts, the screen
/// that is active, or the configuration in force.
pub proof fn law_reports_keep_drafts(s: AppModel, m: AppMsgModel)
    ensures
        after_msg(s, m).compose == s.compose,
        after_msg(s, m).cfg_edit == s.cfg_edit,
        after_msg(s, m).view == s.view,
        after_msg(s, m).return_view == s.return_view,
        after_msg(s, m).config == s.config,
{
}

/// The configuration in force changes only when a saved or reloaded
/// configuration is reported: no key and no other event changes it.
pub proof fn law_config_changes_on_save_only(s: AppModel, e: EventModel)
    requires
        !(e is ConfigSaved),
        !(e is ConfigReloaded),
    ensures
        step(s, e).0.config == s.config,
{
}

/// The loading text has no white space at its ends.
pub proof fn lemma_loading_text_trimmed()
    ensures
        trim(loading_text()) == loading_text(),
        loading_text().len() == 10,
{
    reveal_strlit("Loading...");
    let s = loading_text();
    lemma_lead_at(s, CharClass::Whitespace, 0);
    lemma_trail_at(s, CharClass::Whitespace, 10);
}

/// A reply to a message whose text is empty, or is the loading text, is
/// refused: the screen stays and the draft stays, only the status line
/// changes.
pub proof fn law_reply_refused(s: AppModel)
    requires
        s.current_body.len() == 0 || s.current_body == loading_text(),
    ensures
        !can_reply(s),
        replied(s) == with_status(s, replied(s).status),
        replied(s).view == s.view,
        replied(s).compose == s.compose,
{
    lemma_loading_text_trimmed();
    if s.current_body.len() == 0 {
        lemma_lead_at(s.current_body, CharClass::Whitespace, 0);
    }
}

/// A reply is refused exactly if the open message cannot be answered; a
/// reply that is not refused shows the draft of the reply.
pub proof fn law_reply_iff_can_reply(s: AppModel)
    ensures
        can_reply(s) ==> replied(s).view == View::Compose && replied(s).compose.subject
            == reply_subject(s.current_header->0.subject),
        !can_reply(s) ==> replied(s) == with_status(s, replied(s).status),
{
}

/// Trimming a text that has no white space at its ends changes nothing.
pub proof fn lemma_trim_tight(s: Seq<char>)
    requires
        s.len() > 0,
        !CharClass::Whitespace.has(s[0]),
        !CharClass::Whitespace.has(s.last()),
    ensures
        trim(s) == s,
{
    lemma_lead_at(s, CharClass::Whitespace, 0);
    lemma_trail_at(s, CharClass::Whitespace, s.len() as int);
}

/// A trimmed text that is not empty has no white space at its ends.
pub proof fn lemma_trimmed_is_tight(x: Seq<char>)
    requires
        trim(x).len() > 0,
    ensures
        !CharClass::Whitespace.has(trim(x)[0]),
        !CharClass::Whitespace.has(trim(x).last()),
{
    let k = CharClass::Whitespace;
    lemma_lead(x, k);
    lemma_trail(x.skip(lead(x, k) as int), k);
}

/// The subject of a reply starts with `re:`, in whatever case. A subject
/// that starts so already is only trimmed; any other, the blank one among
/// them, gets `Re: ` before it, trimmed, and so starts with `Re: `. The
/// prefix is never put twice: for a subject that is not blank, the subject
/// of a reply to a reply is the subject of the reply.
pub proof fn law_reply_subject_once(subject: Seq<char>)
    ensures
        has_re_prefix(reply_subject(subject)),
        has_re_prefix(trim(subject)) ==> reply_subject(subject) == trim(subject),
        !has_re_prefix(trim(subject)) ==> reply_subject(subject) == "Re: "@ + trim(subject)
            && reply_subject(subject).take(4) == "Re: "@,
        !is_blank(subject) ==> reply_subject(reply_subject(subject)) == reply_subject(subject),
{
    reveal_strlit("Re: ");
    let s = trim(subject);
    let r = reply_subject(subject);
    if !has_re_prefix(s) {
        assert(r.take(4) =~= "Re: "@);
    }
    if s.len() > 0 {
        lemma_trimmed_is_tight(subject);
        if has_re_prefix(s) {
            lemma_trim_tight(s);
        } else {
            lemma_trim_tight(r);
        }
    }
}

/// Sending a draft whose recipient or subject is blank is refused: the
/// draft and the screen stay as they are, nothing is sent, and the status
/// line says which of the two is missing.
pub proof fn law_send_refused(s: AppModel, k: Key)
    requires
        s.view == View::Compose,
        k.press,
        is_commit(k.code, k.ctrl),
        is_blank(s.compose.to) || is_blank(s.compose.subject),
    ensures
        step(s, EventModel::Key(k)).1 == ActionModel::Idle,
        step(s, EventModel::Key(k)).0 == with_status(s, send_refusal(s.compose)->0),
        step(s, EventModel::Key(k)).0.compose == s.compose,
        step(s, EventModel::Key(k)).0.view == View::Compose,
{
}

/// A draft with a recipient and a subject is sent as it stands, and stays
/// on the screen.
pub proof fn law_send_accepted(s: AppModel, k: Key)
    requires
        s.view == View::Compose,
        k.press,
        is_commit(k.code, k.ctrl),
        !is_blank(s.compose.to),
        !is_blank(s.compose.subject),
    ensures
        step(s, EventModel::Key(k)).1 is Spawn,
        step(s, EventModel::Key(k)).0 == s,
{
}

/// Reading stops with an error at a character that is no digit, if not
/// before.
pub proof fn lemma_read_non_digit(s: Seq<char>, acc: nat, i: int)
    requires
        0 <= i < s.len(),
        !is_digit(s[i]),
    ensures
        read_digits(s, acc) is Err,
    decreases s.len(),
{
    if i > 0 && is_digit(s[0]) && acc * 10 + digit_value(s[0]) <= u16::MAX {
        let t = s.drop_first();
        lemma_read_non_digit(t, acc * 10 + digit_value(s[0]), i - 1);
    }
}

/// A text with a character that is neither a digit nor a `+` at its start
/// is no port number; nor is the empty text.
pub proof fn lemma_non_numeric_is_no_port(s: Seq<char>, i: int)
    requires
        0 <= i < s.len(),
        !is_digit(s[i]),
        i > 0 || s[0] != '+',
    ensures
        parse_port(s) is Err,
        parse_port(Seq::<char>::empty()) is Err,
{
    if !(s.len() == 1 && (s[0] == '+' || s[0] == '-')) {
        if s[0] == '+' {
            let t = s.drop_first();
            lemma_read_non_digit(t, 0, i - 1);
        } else {
            lemma_read_non_digit(s, 0, i);
        }
    }
}

/// Saving a draft of the configuration in which a port is no port number
/// is refused: nothing is written, the configuration in force and the
/// draft stay as they are, and the status line says why.
pub proof fn law_save_refused(s: AppModel, k: Key)
    requires
        s.view == View::Config,
        k.press,
        is_commit(k.code, k.ctrl),
        parse_port(s.cfg_edit.imap_port) is Err || parse_port(s.cfg_edit.smtp_port) is Err,
    ensures
        config_of(s.cfg_edit) is Err,
        step(s, EventModel::Key(k)).1 == ActionModel::Idle,
        step(s, EventModel::Key(k)).0 == with_status(
            s,
            "Config invalid: "@ + config_of(s.cfg_edit)->Err_0.text(),
        ),
        step(s, EventModel::Key(k)).0.config == s.config,
        step(s, EventModel::Key(k)).0.cfg_edit == s.cfg_edit,
        step(s, EventModel::Key(k)).0.view == View::Config,
{
}

/// What is asked to be written when a draft is saved is what comes into
/// force when the writing is reported done.
pub proof fn law_saved_is_what_was_written(s: AppModel, k: Key)
    requires
        s.view == View::Config,
        k.press,
        is_commit(k.code, k.ctrl),
        config_of(s.cfg_edit) is Ok,
    ensures
        step(s, EventModel::Key(k)).0 == s,
        step(s, EventModel::Key(k)).1 == ActionModel::Persist(config_of(s.cfg_edit)->Ok_0),
        step(s, EventModel::ConfigSaved).0.config == config_of(s.cfg_edit)->Ok_0,
        step(s, EventModel::ConfigSaved).0.view == s.return_view,
{
}

/// A failed writing leaves the configuration in force, the draft and the
/// editor on the screen as they are.
pub proof fn law_failed_save_keeps_config(s: AppModel, why: Seq<char>)
    ensures
        step(s, EventModel::SaveFailed(why)).0 == with_status(s, "Save error: "@ + why),
        step(s, EventModel::SaveFailed(why)).0.config == s.config,
        step(s, EventModel::SaveFailed(why)).0.view == s.view,
{
}

/// Leaving a draft with the escape key discards it: the message draft is
/// blank again, the draft of the configuration shows the configuration in
/// force again, and the configuration in force is as it was.
pub proof fn law_escape_discards_draft(s: AppModel, k: Key)
    requires
        k.press,
        k.code == KeyCode::Esc,
    ensures
        s.view == View::Compose ==> step(s, EventModel::Key(k)).0.compose == blank_draft() && step(
            s,
            EventModel::Key(k),
        ).0.view == View::List,
        s.view == View::Config ==> step(s, EventModel::Key(k)).0.cfg_edit == draft_of(s.config)
            && step(s, EventModel::Key(k)).0.view == s.return_view,
        step(s, EventModel::Key(k)).0.config == s.config,
        step(s, EventModel::Key(k)).1 == ActionModel::Idle,
{
}

/// A configuration that is read again from its file is in force and in the
/// draft, field by field, with the first field in focus, whatever the
/// state was; the draft stands for that configuration again.
pub proof fn law_reload_shows_file(s: AppModel, c: ConfigModel)
    ensures
        step(s, EventModel::ConfigReloaded(c)).0.config == c,
        step(s, EventModel::ConfigReloaded(c)).0.cfg_edit == draft_of(c),
        step(s, EventModel::ConfigReloaded(c)).0.cfg_edit.focus == ConfigField::ImapHost,
        config_of(step(s, EventModel::ConfigReloaded(c)).0.cfg_edit) == Ok::<
            ConfigModel,
            PortError,
        >(c),
        step(s, EventModel::ConfigReloaded(c)).1 == ActionModel::Spawn(TaskModel::RefreshList),
{
    law_draft_round_trip(c);
}

/// Saving a draft and then reading the file again brings every field back.
/// Where the file gives back what was asked to be written, the
/// configuration in force after the reload is the one that the draft stood
/// for, and the draft holds every text and switch as it was typed and
/// every port with the number it had, with the first field in focus.
pub proof fn law_save_then_reload(s: AppModel, k: Key)
    requires
        s.view == View::Config,
        k.press,
        is_commit(k.code, k.ctrl),
        config_of(s.cfg_edit) is Ok,
    ensures
        ({
            let d = s.cfg_edit;
            let written = config_of(d)->Ok_0;
            let asked = step(s, EventModel::Key(k));
            let saved = step(asked.0, EventModel::ConfigSaved).0;
            let again = step(saved, EventModel::ConfigReloaded(written)).0;
            &&& asked.1 == ActionModel::Persist(written)
            &&& saved.config == written
            &&& again.config == written
            &&& again.config.imap.host == d.imap_host
            &&& parse_port(d.imap_port) == Ok::<u16, PortError>(again.config.imap.port)
            &&& again.config.imap.username == d.imap_user
            &&& again.config.imap.password == d.imap_pass
            &&& again.config.imap.starttls == d.imap_starttls
            &&& again.config.smtp.host == d.smtp_host
            &&& parse_port(d.smtp_port) == Ok::<u16, PortError>(again.config.smtp.port)
            &&& again.config.smtp.username == d.smtp_user
            &&& again.config.smtp.password == d.smtp_pass
            &&& again.config.smtp.starttls == d.smtp_starttls
            &&& again.config.user.name == d.user_name
            &&& again.config.user.email == d.user_email
            &&& again.cfg_edit == (ConfigEditModel {
                focus: ConfigField::ImapHost,
                imap_port: decimal(again.config.imap.port as nat),
                smtp_port: decimal(again.config.smtp.port as nat),
                ..d
            })
            &&& parse_port(again.cfg_edit.imap_port) == parse_port(d.imap_port)
            &&& parse_port(again.cfg_edit.smtp_port) == parse_port(d.smtp_port)
            &&& config_of(again.cfg_edit) == config_of(d)
        }),
{
    law_draft_round_trip(config_of(s.cfg_edit)->Ok_0);
}

} // verus!
