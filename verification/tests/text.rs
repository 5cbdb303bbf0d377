use codex_switcher::text::{
    can_truncate_text, chars_of, is_blank, is_white_space, same_text, trim_range, truncate_text,
};

#[test]
fn white_space_is_what_the_standard_library_takes_for_it() {
    for code in 0..=0x10ffff_u32 {
        if let Some(c) = char::from_u32(code) {
            assert_eq!(is_white_space(c), c.is_whitespace(), "{code:x}");
        }
    }
}

#[test]
fn characters_come_in_order() {
    assert_eq!(chars_of("a\u{e9}\u{1f600}"), vec!['a', '\u{e9}', '\u{1f600}']);
    assert!(chars_of("").is_empty());
}

#[test]
fn trimming_agrees_with_the_standard_library() {
    for text in ["", "  ", " a ", "\u{3000}a b\t\n", "a", "\r\na\r", "\u{200b}a\u{200b}"] {
        let chars = chars_of(text);
        let (from, to) = trim_range(&chars, 0, chars.len());
        let trimmed: String = chars[from..to].iter().collect();
        assert_eq!(trimmed, text.trim());
        assert_eq!(is_blank(text), text.trim().is_empty());
    }
}

#[test]
fn trimming_stays_in_its_range() {
    let chars = chars_of("x  y  z");
    assert_eq!(trim_range(&chars, 1, 6), (3, 4));
    assert_eq!(trim_range(&chars, 1, 3), (3, 3));
}

#[test]
fn texts_are_compared_by_their_characters() {
    assert!(same_text("data:", "data:"));
    assert!(!same_text("data:", "data"));
    assert!(same_text("", ""));
}

#[test]
fn a_short_text_is_not_cut() {
    assert_eq!(truncate_text("hello", 5), "hello");
    assert_eq!(truncate_text("hello", 300), "hello");
    assert_eq!(truncate_text("", 0), "");
}

#[test]
fn a_long_text_is_cut_and_marked() {
    assert_eq!(truncate_text("hello world", 5), "hello...");
    assert_eq!(truncate_text("hello", 0), "...");
    assert_eq!(truncate_text("a\u{e9}b", 3), "a\u{e9}...");
}

#[test]
fn a_cut_inside_a_character_is_not_possible() {
    assert!(!can_truncate_text("a\u{e9}b", 2));
    assert!(can_truncate_text("a\u{e9}b", 1));
    assert!(can_truncate_text("a\u{e9}b", 3));
    assert!(can_truncate_text("a\u{e9}b", 4));
    assert!(can_truncate_text("a\u{e9}b", 100));
}
