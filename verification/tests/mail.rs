use zenmail::config::MailConfig;
use zenmail::mail::imap::{
    addr_to_string, bytes_opt_to_string, fetch_body_plain, fetch_summaries, pick_recent,
    summarize, Address, Envelope, FetchError, Fetched, FetchedBody,
};
use zenmail::mail::mime::{extract_text_plain, text_of_message, MailPart};
use zenmail::mail::{is_localhost, tls_policy_for, MessageSummary, TlsPolicy};

fn leaf(mimetype: &str, body: Option<&str>) -> MailPart {
    MailPart {
        mimetype: String::from(mimetype),
        body: body.map(String::from),
        subparts: vec![],
    }
}

fn container(mimetype: &str, subparts: Vec<MailPart>) -> MailPart {
    MailPart { mimetype: String::from(mimetype), body: Some(String::from("preamble")), subparts }
}

fn envelope(name: Option<&str>, subject: Option<&str>) -> Envelope {
    Envelope {
        from: Some(vec![Address {
            name: name.map(|n| n.as_bytes().to_vec()),
            mailbox: Some(b"jane".to_vec()),
            host: Some(b"x.com".to_vec()),
        }]),
        date: Some(b" Mon, 1 Jan 2024 ".to_vec()),
        subject: subject.map(|s| s.as_bytes().to_vec()),
    }
}

fn server(host: &str) -> MailConfig {
    MailConfig {
        host: String::from(host),
        port: 993,
        username: String::new(),
        password: String::new(),
        starttls: false,
    }
}

#[test]
fn this_machine_has_two_names() {
    assert!(is_localhost("127.0.0.1"));
    assert!(is_localhost("localhost"));
    assert!(!is_localhost("Localhost"));
    assert!(!is_localhost("127.0.0.2"));
    assert!(!is_localhost(" localhost"));
    assert!(!is_localhost("::1"));
    assert!(!is_localhost(""));
    assert!(!is_localhost("mail.example.org"));
}

#[test]
fn certificates_are_checked_for_other_machines_only() {
    assert_eq!(
        tls_policy_for(&server("localhost")),
        TlsPolicy { accept_invalid_certs: true, accept_invalid_hostnames: true }
    );
    assert_eq!(
        tls_policy_for(&server("127.0.0.1")),
        TlsPolicy { accept_invalid_certs: true, accept_invalid_hostnames: true }
    );
    assert_eq!(
        tls_policy_for(&server("imap.example.org")),
        TlsPolicy { accept_invalid_certs: false, accept_invalid_hostnames: false }
    );
}

#[test]
fn the_most_recent_messages_are_picked_newest_last() {
    assert_eq!(pick_recent(vec![5, 1, 9, 3, 7], 3), vec![5, 7, 9]);
    assert_eq!(pick_recent(vec![5, 1, 9, 3, 7], 5), vec![1, 3, 5, 7, 9]);
    assert_eq!(pick_recent(vec![5, 1, 9, 3, 7], 50), vec![1, 3, 5, 7, 9]);
    assert_eq!(pick_recent(vec![5, 1, 9, 3, 7], 1), vec![9]);
    assert_eq!(pick_recent(vec![5, 1, 9, 3, 7], 0), Vec::<u32>::new());
    assert_eq!(pick_recent(vec![], 50), Vec::<u32>::new());
    assert_eq!(pick_recent(vec![2, 2, 1, u32::MAX, 0], 4), vec![1, 2, 2, u32::MAX]);
    assert_eq!(pick_recent(vec![4], usize::MAX), vec![4]);
}

#[test]
fn fifty_of_many_messages_are_picked() {
    let uids: Vec<u32> = (1..=1000).rev().collect();
    let picked = pick_recent(uids, 50);
    assert_eq!(picked, (951..=1000).collect::<Vec<u32>>());
}

#[test]
fn header_bytes_become_trimmed_text() {
    assert_eq!(bytes_opt_to_string(None), "");
    assert_eq!(bytes_opt_to_string(Some(b"")), "");
    assert_eq!(bytes_opt_to_string(Some(b"  Hello \r\n")), "Hello");
    assert_eq!(bytes_opt_to_string(Some("grüß dich".as_bytes())), "grüß dich");
    assert_eq!(bytes_opt_to_string(Some(b"a\xffb")), "a\u{fffd}b");
    assert_eq!(bytes_opt_to_string(Some(b"\xe2\x82")), "\u{fffd}");
}

#[test]
fn a_sender_is_shown_with_name_and_address() {
    assert_eq!(
        addr_to_string(Some(b" Jane Doe "), Some(b"jane"), Some(b"x.com")),
        "Jane Doe <jane@x.com>"
    );
    assert_eq!(addr_to_string(None, Some(b"jane"), Some(b"x.com")), "<jane@x.com>");
    assert_eq!(addr_to_string(Some(b"  "), Some(b"jane"), Some(b"x.com")), "<jane@x.com>");
    assert_eq!(addr_to_string(Some(b"Jane"), None, Some(b"x.com")), "Jane");
    assert_eq!(addr_to_string(Some(b"Jane"), Some(b"jane"), None), "Jane");
    assert_eq!(addr_to_string(None, None, None), "");
    assert_eq!(addr_to_string(Some(b"J"), Some(b" j "), Some(b"\xff")), "J < j @\u{fffd}>");
}

#[test]
fn an_envelope_is_summarized() {
    let s = summarize(7, &envelope(Some("Jane"), Some(" Hi there ")));
    assert_eq!(
        s,
        MessageSummary {
            uid: 7,
            from: String::from("Jane <jane@x.com>"),
            date: String::from("Mon, 1 Jan 2024"),
            subject: String::from("Hi there"),
        }
    );
    let bare = summarize(8, &Envelope { from: None, date: None, subject: None });
    assert_eq!(
        bare,
        MessageSummary { uid: 8, from: String::new(), date: String::new(), subject: String::new() }
    );
    let nobody = summarize(9, &Envelope { from: Some(vec![]), date: None, subject: None });
    assert_eq!(nobody.from, "");
}

#[test]
fn only_the_first_sender_is_shown() {
    let mut e = envelope(Some("Jane"), None);
    e.from.as_mut().unwrap().push(Address {
        name: Some(b"Bob".to_vec()),
        mailbox: Some(b"bob".to_vec()),
        host: Some(b"y.org".to_vec()),
    });
    assert_eq!(summarize(1, &e).from, "Jane <jane@x.com>");
}

#[test]
fn the_list_holds_a_summary_for_each_message_in_order() {
    let items = vec![
        (3, Fetched::Envelope(envelope(Some("A"), Some("one")))),
        (5, Fetched::Envelope(envelope(None, Some("two")))),
        (9, Fetched::Envelope(envelope(Some("C"), None))),
    ];
    let list = fetch_summaries(&items).unwrap();
    assert_eq!(list.len(), 3);
    assert_eq!(list[0].uid, 3);
    assert_eq!(list[0].from, "A <jane@x.com>");
    assert_eq!(list[0].subject, "one");
    assert_eq!(list[1].uid, 5);
    assert_eq!(list[1].from, "<jane@x.com>");
    assert_eq!(list[2].uid, 9);
    assert_eq!(list[2].subject, "");
    assert_eq!(fetch_summaries(&vec![]), Ok(vec![]));
}

#[test]
fn the_first_missing_envelope_ends_the_listing() {
    let items = vec![
        (3, Fetched::Envelope(envelope(Some("A"), Some("one")))),
        (5, Fetched::NoEnvelope),
        (9, Fetched::Nothing),
    ];
    assert_eq!(fetch_summaries(&items), Err(FetchError::NoEnvelope));
    let items = vec![(3, Fetched::Nothing), (5, Fetched::NoEnvelope)];
    assert_eq!(fetch_summaries(&items), Err(FetchError::NoFetchResult));
}

#[test]
fn fetch_errors_in_words() {
    assert_eq!(FetchError::NoFetchResult.message(), "no fetch result");
    assert_eq!(FetchError::NoEnvelope.message(), "no envelope");
    assert_eq!(FetchError::NoBody.message(), "no body");
}

#[test]
fn plain_text_of_a_leaf() {
    assert_eq!(extract_text_plain(&leaf("text/plain", Some("hello"))), "hello");
    assert_eq!(extract_text_plain(&leaf("TEXT/Plain", Some("hello"))), "hello");
    assert_eq!(extract_text_plain(&leaf("text/plain", Some("  "))), "  ");
    assert_eq!(extract_text_plain(&leaf("text/plain", None)), "");
    assert_eq!(extract_text_plain(&leaf("text/html", Some("<p>hello</p>"))), "");
    assert_eq!(extract_text_plain(&leaf("text/plain ", Some("hello"))), "");
    assert_eq!(extract_text_plain(&leaf("", Some("hello"))), "");
}

#[test]
fn plain_text_of_nested_parts() {
    let m = container(
        "multipart/mixed",
        vec![
            container(
                "multipart/alternative",
                vec![leaf("text/plain", Some("first")), leaf("text/html", Some("<p>first</p>"))],
            ),
            leaf("text/plain", Some(" \n")),
            leaf("application/pdf", Some("%PDF")),
            container("multipart/mixed", vec![leaf("image/png", None)]),
            leaf("text/plain", Some("second\n")),
        ],
    );
    assert_eq!(extract_text_plain(&m), "first\n\nsecond\n");
    let plain_container = container("text/plain", vec![leaf("text/html", Some("x"))]);
    assert_eq!(extract_text_plain(&plain_container), "");
    let empty_container = container("multipart/mixed", vec![]);
    assert_eq!(extract_text_plain(&empty_container), "");
}

#[test]
fn text_of_a_simple_message() {
    let raw = b"Subject: test\r\nContent-Type: text/plain; charset=utf-8\r\n\r\nThis is the body";
    assert_eq!(text_of_message(raw), Ok(String::from("This is the body")));
    assert_eq!(text_of_message(b"Subject: test\n\nno type"), Ok(String::from("no type")));
    assert_eq!(text_of_message(b""), Ok(String::new()));
}

#[test]
fn text_of_a_multipart_message() {
    let raw = "From: Jane <jane@x.com>\r\nContent-Type: multipart/alternative; boundary=\"XX\"\r\n\r\n--XX\r\nContent-Type: TEXT/PLAIN; charset=iso-8859-1\r\nContent-Transfer-Encoding: quoted-printable\r\n\r\nGr=FC=DFe\r\n--XX\r\nContent-Type: text/html\r\n\r\n<p>Gruesse</p>\r\n--XX\r\nContent-Type: text/plain\r\nContent-Transfer-Encoding: base64\r\n\r\naGVsbG8=\r\n--XX--\r\n";
    assert_eq!(text_of_message(raw.as_bytes()), Ok(String::from("Grüße\n\nhello")));
}

#[test]
fn a_part_that_cannot_be_decoded_has_no_text() {
    let raw = "Content-Type: text/plain\r\nContent-Transfer-Encoding: base64\r\n\r\n!!!not base64!!!\r\n";
    assert_eq!(text_of_message(raw.as_bytes()), Ok(String::new()));
}

#[test]
fn a_message_that_cannot_be_read_gives_the_error_in_words() {
    let raw = b" Subject: starts with a space\r\n\r\nbody";
    let e = text_of_message(raw).unwrap_err();
    assert_eq!(
        e,
        "Header cannot start with a space; it is likely an overhanging line from a previous header"
    );
    assert_eq!(e, mailparse::parse_mail(raw).unwrap_err().to_string());
    assert_eq!(
        text_of_message(b"\rbody"),
        Err(String::from("Headers were followed by an unexpected lone CR character!"))
    );
    assert_eq!(
        fetch_body_plain(&FetchedBody::Body(b"\rbody".to_vec())),
        Err(String::from("Headers were followed by an unexpected lone CR character!"))
    );
}

#[test]
fn body_of_what_the_server_returned() {
    assert_eq!(fetch_body_plain(&FetchedBody::Nothing), Err(String::from("no fetch result")));
    assert_eq!(fetch_body_plain(&FetchedBody::NoBody), Err(String::from("no body")));
    assert_eq!(
        fetch_body_plain(&FetchedBody::Body(b"Subject: x\r\n\r\nhello\r\n".to_vec())),
        Ok(String::from("hello\r\n"))
    );
}
