use walk::text::is_whitespace;
use walk::words::{chars_of, words_of};

#[test]
fn white_space_is_what_the_standard_library_calls_so() {
    for code in 0..=0x10ffffu32 {
        if let Some(c) = char::from_u32(code) {
            assert_eq!(is_whitespace(c), c.is_whitespace(), "U+{:04X}", code);
        }
    }
}

#[test]
fn white_space_examples() {
    assert!(is_whitespace(' '));
    assert!(is_whitespace('\t'));
    assert!(is_whitespace('\n'));
    assert!(is_whitespace('\u{b}'));
    assert!(is_whitespace('\u{c}'));
    assert!(is_whitespace('\r'));
    assert!(is_whitespace('\u{85}'));
    assert!(is_whitespace('\u{a0}'));
    assert!(is_whitespace('\u{2003}'));
    assert!(is_whitespace('\u{3000}'));
    assert!(!is_whitespace('a'));
    assert!(!is_whitespace('\u{8}'));
    assert!(!is_whitespace('\u{e}'));
    assert!(!is_whitespace('\u{200b}'));
    assert!(!is_whitespace('\u{180e}'));
    assert!(!is_whitespace('\u{feff}'));
}

#[test]
fn chars_are_kept_in_order() {
    assert_eq!(chars_of(""), Vec::<char>::new());
    assert_eq!(chars_of("a b"), vec!['a', ' ', 'b']);
    assert_eq!(chars_of("\u{e9}\u{3000}z"), vec!['\u{e9}', '\u{3000}', 'z']);
}

#[test]
fn lines_split_into_words() {
    assert_eq!(words_of(""), Vec::<&str>::new());
    assert_eq!(words_of(" \t\n"), Vec::<&str>::new());
    assert_eq!(words_of("one"), vec!["one"]);
    assert_eq!(words_of("  one  "), vec!["one"]);
    assert_eq!(words_of("one two"), vec!["one", "two"]);
    assert_eq!(words_of("one\ttwo\n\nthree "), vec!["one", "two", "three"]);
    assert_eq!(words_of("a\u{3000}b\u{a0}c"), vec!["a", "b", "c"]);
    assert_eq!(words_of("\u{e9}t\u{e9} \u{4e16}\u{754c}"), vec!["\u{e9}t\u{e9}", "\u{4e16}\u{754c}"]);
}

#[test]
fn splitting_agrees_with_the_standard_library() {
    let samples = [
        "",
        " ",
        "LOOK AT BOOK",
        "  leading",
        "trailing  ",
        "tabs\tand\nlines\r\n",
        "\u{2003}wide\u{2003}gaps\u{2003}",
        "a b c d e f g",
        "zero\u{200b}width is no space",
        "\u{1680}ogham\u{1680}",
    ];
    for s in samples {
        let expected: Vec<&str> = s.split_whitespace().collect();
        assert_eq!(words_of(s), expected, "{:?}", s);
    }
}
