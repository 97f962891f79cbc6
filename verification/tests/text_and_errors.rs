use neuro_kar_manager::auth::{authorize_arguments, remote_parameters, token_parameters};
use neuro_kar_manager::error::{EngineError, ErrorKind};
use neuro_kar_manager::text::{
    char_is_space, find_either, find_last, find_text, matches_at, same_text, slice_text,
    text_ends_with, to_chars, trim_bounds,
};

fn chars(s: &str) -> Vec<char> {
    s.chars().collect()
}

fn trim(s: &str) -> String {
    let c = chars(s);
    let (from, to) = trim_bounds(&c, 0, c.len());
    c[from..to].iter().collect()
}

#[test]
fn to_chars_lists_the_characters() {
    assert_eq!(to_chars(""), Vec::<char>::new());
    assert_eq!(to_chars("aé日"), vec!['a', 'é', '日']);
}

#[test]
fn slice_counts_characters() {
    assert_eq!(slice_text("aé日b", 1, 3), "é日");
    assert_eq!(slice_text("abc", 0, 0), "");
    assert_eq!(slice_text("abc", 3, 3), "");
    assert_eq!(slice_text("abc", 0, 3), "abc");
}

#[test]
fn whitespace_is_what_the_standard_library_says() {
    for code in 0..0x11_0000u32 {
        if let Some(c) = char::from_u32(code) {
            assert_eq!(char_is_space(c), c.is_whitespace(), "U+{:04X}", code);
        }
    }
}

#[test]
fn trimming_agrees_with_the_standard_library() {
    for s in ["", " ", "a", "  a b  ", "\t\r\n x \u{3000}", "\u{a0}\u{2003}", "x\u{200b} ", " é "] {
        assert_eq!(trim(s), s.trim(), "{:?}", s);
    }
}

#[test]
fn trim_bounds_stay_within_the_part() {
    let c = chars("  ab  cd  ");
    assert_eq!(trim_bounds(&c, 2, 8), (2, 8));
    assert_eq!(trim_bounds(&c, 4, 6), (6, 6));
    assert_eq!(trim_bounds(&c, 3, 7), (3, 7));
    assert_eq!(trim_bounds(&c, 5, 5), (5, 5));
    assert_eq!(trim_bounds(&c, 0, 10), (2, 8));
}

#[test]
fn first_of_two_characters() {
    let c = chars("ab/cd?e");
    assert_eq!(find_either(&c, 0, '/', '?'), 2);
    assert_eq!(find_either(&c, 3, '/', '?'), 2);
    assert_eq!(find_either(&c, 6, '/', '?'), 1);
    assert_eq!(find_either(&c, 7, '/', '?'), 0);
    assert_eq!(find_either(&c, 0, 'x', 'y'), 7);
}

#[test]
fn last_of_a_character() {
    assert_eq!(find_last(&chars("a}b}c"), '}'), Some(3));
    assert_eq!(find_last(&chars("}"), '}'), Some(0));
    assert_eq!(find_last(&chars("abc"), '}'), None);
    assert_eq!(find_last(&chars(""), '}'), None);
}

#[test]
fn search_agrees_with_the_standard_library() {
    let hays = ["", "a", "abcabc", "aaa", "xxabxxab", "日本語日本"];
    let needles = ["", "a", "ab", "abc", "c", "aa", "本", "日本", "abcabcabc"];
    for hay in hays {
        for needle in needles {
            let expected = hay.find(needle).map(|at| hay[..at].chars().count());
            assert_eq!(find_text(&chars(hay), &chars(needle)), expected, "{:?} {:?}", hay, needle);
            assert_eq!(
                text_ends_with(&chars(hay), &chars(needle)),
                hay.ends_with(needle),
                "{:?} {:?}",
                hay,
                needle
            );
        }
    }
}

#[test]
fn match_at_an_index() {
    let hay = chars("abcabc");
    assert!(matches_at(&hay, &chars("bc"), 1));
    assert!(matches_at(&hay, &chars("bc"), 4));
    assert!(!matches_at(&hay, &chars("bc"), 5));
    assert!(!matches_at(&hay, &chars("bc"), 0));
    assert!(matches_at(&hay, &chars(""), 6));
    assert!(!matches_at(&hay, &chars(""), 7));
    assert!(!matches_at(&hay, &chars("abcabca"), 0));
    assert!(!matches_at(&hay, &chars("a"), usize::MAX));
}

#[test]
fn texts_are_compared_by_content() {
    assert!(same_text("", ""));
    assert!(same_text("drive", "drive"));
    assert!(!same_text("drive", "Drive"));
    assert!(!same_text("drive", "drive "));
}

#[test]
fn error_message_is_its_detail() {
    let e = EngineError::new(ErrorKind::Cancelled, "Command cancelled by user");
    assert_eq!(e.kind, ErrorKind::Cancelled);
    assert_eq!(e.message(), "Command cancelled by user");
    let e = EngineError::caused(ErrorKind::Spawn, "Failed to spawn command: ", "denied");
    assert_eq!(e, EngineError { kind: ErrorKind::Spawn, detail: "Failed to spawn command: denied".to_string() });
}

#[test]
fn token_is_wrapped_as_a_json_string_member() {
    assert_eq!(token_parameters("abc"), "{\"token\":\"abc\"}");
    assert_eq!(token_parameters(""), "{\"token\":\"\"}");
    assert_eq!(
        token_parameters("{\"a\":\"b\\c\"}\n"),
        "{\"token\":\"{\\\"a\\\":\\\"b\\\\c\\\"}\\n\"}"
    );
}

#[test]
fn parameters_come_from_the_embedded_object() {
    assert_eq!(
        remote_parameters("Paste this:\n{\"x\":1}\nbye"),
        Ok("{\"token\":\"{\\\"x\\\":1}\"}".to_string())
    );
    assert_eq!(
        remote_parameters("nothing here"),
        Err(EngineError {
            kind: ErrorKind::Parse,
            detail: "Failed to extract token from auth output".to_string(),
        })
    );
}

#[test]
fn authorize_arguments_tell_whether_to_open_the_browser() {
    assert_eq!(authorize_arguments(true), vec!["authorize", "drive"]);
    assert_eq!(authorize_arguments(false), vec!["authorize", "drive", "--auth-no-open-browser"]);
}
