use nodemcu_collector::text::{
    chars_of, has_text, is_space, is_text, nth_piece, same_text, skip_pieces, split_first, strip,
    text_between, trimmed, value_behind,
};

#[test]
fn white_space_agrees_with_std() {
    let mut code: u32 = 0;
    while code <= 0x10FFFF {
        if let Some(c) = char::from_u32(code) {
            assert_eq!(is_space(c), c.is_whitespace(), "U+{:04X}", code);
        }
        code += 1;
    }
}

#[test]
fn trimmed_agrees_with_std() {
    let samples = [
        "", " ", "   ", "a", " a", "a ", " a b ", "\t\r\n x \u{3000}", "\u{a0}x\u{2003}",
        "\u{85}", "é ", " \u{200b} ",
    ];
    for s in samples {
        assert_eq!(trimmed(s), s.trim(), "{:?}", s);
    }
}

#[test]
fn split_first_cuts_at_first_delimiter() {
    assert_eq!(split_first("a:b:c", ':'), ("a", Some("b:c")));
    assert_eq!(split_first("abc", ':'), ("abc", None));
    assert_eq!(split_first("", ':'), ("", None));
    assert_eq!(split_first(":", ':'), ("", Some("")));
    assert_eq!(split_first("é:ü", ':'), ("é", Some("ü")));
    assert_eq!(split_first("ab:", ':'), ("ab", Some("")));
}

#[test]
fn pieces_are_counted_from_zero() {
    assert_eq!(skip_pieces("a b c d", ' ', 0), Some("a b c d"));
    assert_eq!(skip_pieces("a b c d", ' ', 2), Some("c d"));
    assert_eq!(skip_pieces("a b c d", ' ', 3), Some("d"));
    assert_eq!(skip_pieces("a b c d", ' ', 4), None);
    assert_eq!(nth_piece("a b c d", ' ', 0), Some("a"));
    assert_eq!(nth_piece("a b c d", ' ', 3), Some("d"));
    assert_eq!(nth_piece("a b c d", ' ', 4), None);
    assert_eq!(nth_piece("a  b", ' ', 1), Some(""));
}

#[test]
fn value_and_bracket_text() {
    assert_eq!(value_behind(Some("k=v=w"), '='), Some("v=w"));
    assert_eq!(value_behind(Some("kv"), '='), None);
    assert_eq!(value_behind(None, '='), None);
    assert_eq!(text_between(Some(" [2.5] x"), '[', ']'), Some("2.5"));
    assert_eq!(text_between(Some("] [1] "), '[', ']'), Some("1"));
    assert_eq!(text_between(Some("[1"), '[', ']'), None);
    assert_eq!(text_between(Some("1]"), '[', ']'), None);
    assert_eq!(text_between(Some("[]"), '[', ']'), Some(""));
    assert_eq!(text_between(None, '[', ']'), None);
}

#[test]
fn has_text_finds_literals() {
    assert!(has_text("a -- b", " -- "));
    assert!(!has_text("a - - b", " -- "));
    assert!(has_text("abc", ""));
    assert!(has_text("", ""));
    assert!(!has_text("", "a"));
    assert!(!has_text("ab", "abc"));
    assert!(has_text("xxPM2.5", "PM2.5"));
    assert!(has_text("aab", "ab"));
}

#[test]
fn text_comparisons() {
    assert!(same_text("up", "up"));
    assert!(!same_text("up", "UP"));
    assert!(!same_text("up", "upp"));
    assert!(same_text("", ""));
    assert_eq!(chars_of("aé"), vec!['a', 'é']);
    assert!(is_text(&vec!['n', 'o'], "no"));
    assert!(!is_text(&vec!['n'], "no"));
    assert_eq!(strip("deep:sleep::", ':'), chars_of("deepsleep"));
    assert_eq!(strip(":::", ':'), Vec::<char>::new());
}
