use zenmail::text::{
    chars_of, is_blank_str, is_space_char, lead_at, lower_char, lowered_is, string_of, strip_at,
    trail_at, trim_str, CharClass,
};

#[test]
fn strip_removes_white_space_at_both_ends() {
    let v = chars_of("  hello world \n");
    let (a, b) = strip_at(&v, 0, v.len(), CharClass::Whitespace);
    assert_eq!(string_of(&v, a, b), "hello world");
}

#[test]
fn white_space_class_agrees_with_std_on_every_char() {
    let mut c = '\0';
    loop {
        assert_eq!(is_space_char(c), c.is_whitespace(), "{:?}", c);
        assert_eq!(CharClass::Whitespace.holds(c), c.is_whitespace());
        assert_eq!(CharClass::NonWhitespace.holds(c), !c.is_whitespace());
        if c == char::MAX {
            break;
        }
        c = char::from_u32(c as u32 + 1).unwrap_or('\u{e000}');
    }
}

#[test]
fn wrapping_class_is_the_four_marks() {
    for c in ['<', '>', ',', ';'] {
        assert!(CharClass::Wrapping.holds(c));
    }
    for c in ['a', '@', ' ', '.', ':', '(', '"'] {
        assert!(!CharClass::Wrapping.holds(c));
    }
    assert!(CharClass::Other('x').holds('y'));
    assert!(!CharClass::Other('x').holds('x'));
}

#[test]
fn chars_and_strings_keep_non_ascii_text() {
    let v = chars_of("añ→𝄞");
    assert_eq!(v, vec!['a', 'ñ', '→', '𝄞']);
    assert_eq!(string_of(&v, 1, 3), "ñ→");
    assert_eq!(string_of(&v, 2, 2), "");
}

#[test]
fn lead_and_trail_find_the_longest_runs() {
    let v = chars_of("  ab  ");
    assert_eq!(lead_at(&v, 0, v.len(), CharClass::Whitespace), 2);
    assert_eq!(trail_at(&v, 0, v.len(), CharClass::Whitespace), 4);
    assert_eq!(lead_at(&v, 2, v.len(), CharClass::NonWhitespace), 4);
    assert_eq!(lead_at(&v, 0, v.len(), CharClass::Other('b')), 3);
    assert_eq!(lead_at(&v, 0, v.len(), CharClass::Other('z')), 6);
    assert_eq!(lead_at(&v, 3, 3, CharClass::Whitespace), 3);
}

#[test]
fn strip_of_a_text_of_one_class_is_empty() {
    let v = chars_of("<<,;>>");
    let (a, b) = strip_at(&v, 0, v.len(), CharClass::Wrapping);
    assert_eq!(a, b);
    let w = chars_of(" \t\r\n\u{a0}\u{3000}");
    let (a, b) = strip_at(&w, 0, w.len(), CharClass::Whitespace);
    assert_eq!(a, b);
}

#[test]
fn trim_agrees_with_std_on_small_texts() {
    let alphabet = ['a', ' ', '\n', '\u{a0}', '\u{200b}', '\t'];
    let mut texts: Vec<String> = vec![String::new()];
    let mut from = 0;
    for _ in 0..5 {
        let upto = texts.len();
        for i in from..upto {
            for c in alphabet {
                let mut t = texts[i].clone();
                t.push(c);
                texts.push(t);
            }
        }
        from = upto;
    }
    for t in &texts {
        assert_eq!(trim_str(t), t.trim(), "{:?}", t);
        assert_eq!(is_blank_str(t), t.trim().is_empty(), "{:?}", t);
    }
}

#[test]
fn small_letters_agree_with_std_on_every_char() {
    let mut c = '\0';
    loop {
        assert_eq!(lower_char(c), c.to_ascii_lowercase(), "{:?}", c);
        if c == char::MAX {
            break;
        }
        c = char::from_u32(c as u32 + 1).unwrap_or('\u{e000}');
    }
}

#[test]
fn no_other_char_becomes_a_letter_of_the_plain_text_type() {
    let target = "text/plain";
    let mut c = '\0';
    loop {
        let low: String = c.to_lowercase().collect();
        if low.chars().all(|x| target.contains(x)) {
            assert!(c.is_ascii(), "{:?}", c);
            assert_eq!(low, lower_char(c).to_string());
        }
        if c == char::MAX {
            break;
        }
        c = char::from_u32(c as u32 + 1).unwrap_or('\u{e000}');
    }
}

#[test]
fn comparing_in_small_letters_agrees_with_std() {
    let target = "text/plain";
    let letters: Vec<char> = target.chars().collect();
    for mask in 0u32..(1 << letters.len()) {
        let t: String = letters
            .iter()
            .enumerate()
            .map(|(i, c)| if mask & (1 << i) != 0 { c.to_ascii_uppercase() } else { *c })
            .collect();
        assert!(lowered_is(&t, target), "{:?}", t);
        assert_eq!(t.to_lowercase(), target);
    }
    for t in [
        "",
        "text/plain ",
        " text/plain",
        "text/plai",
        "text/plainn",
        "text/html",
        "TEXT/PLA\u{130}N",
        "text/pla\u{131}n",
        "te\u{212a}t/plain",
        "\u{ff34}ext/plain",
        "text\u{2215}plain",
        "ΤΕΧΤ/PLAIN",
    ] {
        assert_eq!(lowered_is(t, target), t.to_lowercase() == target, "{:?}", t);
        assert!(!lowered_is(t, target), "{:?}", t);
    }
    assert!(lowered_is("ÄB", "Äb"));
    assert!(!lowered_is("ÄB", "äb"));
    assert!(!lowered_is("ab", "AB"));
}
