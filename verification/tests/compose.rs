use zenmail::compose::{
    compose_full_body, extract_reply_to, make_reply_quote, make_reply_subject, quote_lines,
    ComposeField, ComposeState,
};
use zenmail::mail::MessageSummary;

fn small_texts(alphabet: &[char], depth: usize) -> Vec<String> {
    let mut texts: Vec<String> = vec![String::new()];
    let mut from = 0;
    for _ in 0..depth {
        let upto = texts.len();
        for i in from..upto {
            for c in alphabet {
                let mut t = texts[i].clone();
                t.push(*c);
                texts.push(t);
            }
        }
        from = upto;
    }
    texts
}

fn reply_to_by_std(from: &str) -> String {
    let s = from.trim();
    if let Some(l) = s.find('<') {
        if let Some(r) = s[l + 1..].find('>') {
            let addr = s[l + 1..l + 1 + r].trim();
            if !addr.is_empty() {
                return addr.to_string();
            }
        }
    }
    for tok in s.split_whitespace() {
        let t = tok.trim_matches(|c: char| c == '<' || c == '>' || c == ',' || c == ';');
        if t.contains('@') {
            return t.to_string();
        }
    }
    s.to_string()
}

fn quote_by_std(text: &str) -> String {
    let mut out = String::new();
    for (i, line) in text.replace("\r\n", "\n").lines().enumerate() {
        if i > 0 {
            out.push('\n');
        }
        out.push_str("> ");
        out.push_str(line);
    }
    if out.is_empty() {
        out.push_str("> ");
    }
    out
}

fn draft(body: &str, quote: &str) -> ComposeState {
    ComposeState {
        to: String::from("a@b.c"),
        subject: String::from("s"),
        body: String::from(body),
        quote: String::from(quote),
        focus: ComposeField::Body,
    }
}

#[test]
fn quoting_prefixes_every_line() {
    assert_eq!(quote_lines("hello\nworld"), "> hello\n> world");
}

#[test]
fn quoting_an_empty_text_gives_one_mark() {
    assert_eq!(quote_lines(""), "> ");
}

#[test]
fn quoting_handles_line_ends() {
    assert_eq!(quote_lines("a\r\nb"), "> a\n> b");
    assert_eq!(quote_lines("a\n"), "> a");
    assert_eq!(quote_lines("\n"), "> ");
    assert_eq!(quote_lines("a\n\nb"), "> a\n> \n> b");
    assert_eq!(quote_lines("\r\r\n"), "> ");
    assert_eq!(quote_lines("a\rb"), "> a\rb");
    assert_eq!(quote_lines("   "), ">    ");
    assert_eq!(quote_lines("grüß\ndich"), "> grüß\n> dich");
}

#[test]
fn quoting_agrees_with_std_on_small_texts() {
    for t in small_texts(&['a', '\r', '\n', ' '], 7) {
        assert_eq!(quote_lines(&t), quote_by_std(&t), "{:?}", t);
    }
}

#[test]
fn reply_goes_to_the_address_in_brackets() {
    assert_eq!(extract_reply_to("Jane Doe <jane@x.com>"), "jane@x.com");
}

#[test]
fn reply_goes_to_a_bare_address() {
    assert_eq!(extract_reply_to("jane@x.com"), "jane@x.com");
}

#[test]
fn reply_to_nothing_is_nothing() {
    assert_eq!(extract_reply_to(""), "");
}

#[test]
fn reply_address_in_other_forms() {
    assert_eq!(extract_reply_to("  Jane <  jane@x.com  >  "), "jane@x.com");
    assert_eq!(extract_reply_to("Jane <> jane@x.com, bob@y.org"), "jane@x.com");
    assert_eq!(extract_reply_to("to: ;jane@x.com;, other"), "jane@x.com");
    assert_eq!(extract_reply_to("Jane Doe"), "Jane Doe");
    assert_eq!(extract_reply_to("  Jane Doe  "), "Jane Doe");
    assert_eq!(extract_reply_to("Jane <jane"), "Jane <jane");
    assert_eq!(extract_reply_to("a <b> c@d"), "b");
    assert_eq!(extract_reply_to("> x@y <"), "x@y");
    assert_eq!(extract_reply_to("<,;@;,>"), ",;@;,");
}

#[test]
fn reply_address_agrees_with_std_on_small_texts() {
    for t in small_texts(&['a', '@', '<', '>', ' ', ',', ';'], 6) {
        assert_eq!(extract_reply_to(&t), reply_to_by_std(&t), "{:?}", t);
    }
}

#[test]
fn reply_subject_gets_its_prefix_once() {
    assert_eq!(make_reply_subject("Hello"), "Re: Hello");
    assert_eq!(make_reply_subject("  Hello  "), "Re: Hello");
    assert_eq!(make_reply_subject("Re: Hello"), "Re: Hello");
    assert_eq!(make_reply_subject("re: Hello"), "re: Hello");
    assert_eq!(make_reply_subject("RE: Hello"), "RE: Hello");
    assert_eq!(make_reply_subject("rE:Hello"), "rE:Hello");
    assert_eq!(make_reply_subject(" Re:x "), "Re:x");
    assert_eq!(make_reply_subject("Regarding"), "Re: Regarding");
    assert_eq!(make_reply_subject("Re"), "Re: Re");
    let once = make_reply_subject("Hello");
    assert_eq!(make_reply_subject(&once), once);
    let kept = make_reply_subject("  RE: Hello ");
    assert_eq!(make_reply_subject(&kept), kept);
}

#[test]
fn reply_subject_of_a_blank_subject_is_the_prefix() {
    assert_eq!(make_reply_subject(""), "Re: ");
    assert_eq!(make_reply_subject("   "), "Re: ");
    assert_eq!(make_reply_subject(" \t\n\u{a0}"), "Re: ");
    assert!(make_reply_subject("").starts_with("Re: "));
    assert_eq!(make_reply_subject(":"), "Re: :");
    assert_eq!(make_reply_subject("re"), "Re: re");
}

#[test]
fn reply_subject_agrees_with_std_on_small_texts() {
    for t in small_texts(&['r', 'R', 'e', 'E', ':', ' ', 'x'], 6) {
        let s = t.trim();
        let expected = if s.to_ascii_lowercase().starts_with("re:") {
            s.to_string()
        } else {
            format!("Re: {s}")
        };
        assert_eq!(make_reply_subject(&t), expected, "{:?}", t);
        assert!(make_reply_subject(&t).to_ascii_lowercase().starts_with("re:"), "{:?}", t);
        if !s.to_ascii_lowercase().starts_with("re:") {
            assert!(make_reply_subject(&t).starts_with("Re: "), "{:?}", t);
        }
    }
}

#[test]
fn reply_quote_names_date_and_sender() {
    let h = MessageSummary {
        uid: 1,
        from: String::from("Jane <jane@x.com>"),
        date: String::from("Mon, 1 Jan 2024"),
        subject: String::from("s"),
    };
    assert_eq!(
        make_reply_quote(&h, "hello\nworld"),
        "On Mon, 1 Jan 2024, Jane <jane@x.com> wrote:\n> hello\n> world"
    );
}

#[test]
fn reply_quote_without_date_and_sender() {
    let h = MessageSummary {
        uid: 1,
        from: String::new(),
        date: String::new(),
        subject: String::new(),
    };
    assert_eq!(make_reply_quote(&h, "x"), "On (unknown date), (unknown) wrote:\n> x");
}

#[test]
fn full_body_joins_body_and_quote() {
    assert_eq!(compose_full_body(&draft("hi  \n", "> x\n\n")), "hi\n\n> x");
    assert_eq!(compose_full_body(&draft("  hi", "")), "  hi");
    assert_eq!(compose_full_body(&draft("hi", "   ")), "hi");
    assert_eq!(compose_full_body(&draft("", "> x")), "> x");
    assert_eq!(compose_full_body(&draft(" \n ", "> x")), "> x");
    assert_eq!(compose_full_body(&draft("", "")), "");
}

#[test]
fn a_new_draft_is_empty_with_the_recipient_in_focus() {
    let d = ComposeState::new();
    assert_eq!(d.to, "");
    assert_eq!(d.subject, "");
    assert_eq!(d.body, "");
    assert_eq!(d.quote, "");
    assert_eq!(d.focus, ComposeField::To);
}
