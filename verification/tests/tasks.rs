use zenmail::app::{AppMsg, Event, Task};
use zenmail::editor::{count_words, editor_command, editor_exit, EditorCommand};
use zenmail::mail::MessageSummary;
use zenmail::tasks::{body_finished, list_finished, send_finished};

fn header(uid: u32) -> MessageSummary {
    MessageSummary {
        uid,
        from: String::from("Jane"),
        date: String::from("Mon"),
        subject: String::from("Hello"),
    }
}

#[test]
fn a_task_is_announced() {
    assert_eq!(Task::RefreshList.started(), AppMsg::Status(String::from("Fetching mail list...")));
    assert_eq!(
        Task::FetchBody(header(4711)).started(),
        AppMsg::Status(String::from("Fetching body (uid=4711)..."))
    );
    assert_eq!(
        Task::FetchBody(header(u32::MAX)).started(),
        AppMsg::Status(String::from("Fetching body (uid=4294967295)..."))
    );
    let send = Task::SendMail { to: String::new(), subject: String::new(), body: String::new() };
    assert_eq!(send.started(), AppMsg::Status(String::from("Sending...")));
}

#[test]
fn a_finished_listing_is_reported() {
    assert_eq!(list_finished(Ok(vec![header(1)])), AppMsg::MailList(vec![header(1)]));
    assert_eq!(
        list_finished(Err(String::from("no envelope"))),
        AppMsg::Status(String::from("IMAP list error: no envelope"))
    );
}

#[test]
fn a_finished_reading_carries_its_header_through() {
    assert_eq!(
        body_finished(header(3), Ok(String::from("text"))),
        AppMsg::MailBody { header: header(3), body: String::from("text") }
    );
    assert_eq!(
        body_finished(header(3), Err(String::from("no body"))),
        AppMsg::Status(String::from("IMAP body error: no body"))
    );
}

#[test]
fn a_finished_sending_is_reported() {
    assert_eq!(send_finished(Ok(())), AppMsg::Status(String::from("Sent")));
    assert_eq!(
        send_finished(Err(String::from("Connection refused"))),
        AppMsg::Status(String::from("SMTP error: Connection refused"))
    );
}

#[test]
fn words_are_counted() {
    assert_eq!(count_words(""), 0);
    assert_eq!(count_words("   "), 0);
    assert_eq!(count_words("nano"), 1);
    assert_eq!(count_words("  nano  "), 1);
    assert_eq!(count_words("code --wait"), 2);
    assert_eq!(count_words("\temacsclient  -nw\n-a ''"), 4);
    for t in ["", " ", "a", "a b", " a  b c ", "a\u{a0}b", "a\u{200b}b", "x\ty\nz"] {
        assert_eq!(count_words(t), t.split_whitespace().count(), "{:?}", t);
    }
}

#[test]
fn an_editor_with_arguments_goes_through_the_shell() {
    assert_eq!(
        editor_command(Some("code --wait"), "/home/u/.config/zenmail/config.toml"),
        EditorCommand::Shell { line: String::from("code --wait /home/u/.config/zenmail/config.toml") }
    );
}

#[test]
fn an_editor_of_one_word_is_run_itself() {
    assert_eq!(
        editor_command(Some("vim"), "/tmp/c.toml"),
        EditorCommand::Direct { program: String::from("vim"), path: String::from("/tmp/c.toml") }
    );
    assert_eq!(
        editor_command(Some(" vim "), "c.toml"),
        EditorCommand::Direct { program: String::from(" vim "), path: String::from("c.toml") }
    );
    assert_eq!(
        editor_command(Some(""), "c.toml"),
        EditorCommand::Direct { program: String::new(), path: String::from("c.toml") }
    );
}

#[test]
fn without_an_editor_the_default_is_run() {
    assert_eq!(
        editor_command(None, "c.toml"),
        EditorCommand::Direct { program: String::from("nano"), path: String::from("c.toml") }
    );
}

#[test]
fn a_failed_editor_is_reported() {
    assert_eq!(editor_exit(true), None);
    assert_eq!(
        editor_exit(false),
        Some(Event::EditorFailed(String::from("editor exited with non-zero")))
    );
}
