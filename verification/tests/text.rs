use pacsea::number::{parse_u32, u32_to_decimal};
use pacsea::split::{join, split_lines, split_words};
use pacsea::text::{
    ascii_lowercase_chars, chars_of, contains, is_white_space, same_text, starts_with, trim,
};

const SAMPLES: [&str; 14] = [
    "",
    " ",
    "\n",
    "a",
    "a\nb",
    "a\r\nb\r\n",
    "a\rb\r",
    "\n\na\n\n",
    "  a  b\tc ",
    "\u{a0}a\u{2003}b\u{3000}",
    "Grüße\nÄÖÜ\r\n",
    "\r\n\r",
    "\u{1f600} \u{1f601}\n",
    "x\u{85}y\u{2028}z\u{200b}",
];

#[test]
fn white_space_is_that_of_unicode() {
    for code in 0..=0x10ffff_u32 {
        if let Some(c) = char::from_u32(code) {
            assert_eq!(is_white_space(c), c.is_whitespace(), "{code:x}");
        }
    }
}

#[test]
fn text_operations_agree_with_the_standard_library() {
    for text in SAMPLES {
        assert_eq!(chars_of(text), text.chars().collect::<Vec<char>>());
        assert_eq!(trim(text), text.trim());
        assert_eq!(split_lines(text), text.lines().collect::<Vec<&str>>());
        assert_eq!(
            split_words(text),
            text.split_whitespace().collect::<Vec<&str>>()
        );
        assert_eq!(
            ascii_lowercase_chars(text),
            text.to_ascii_lowercase().chars().collect::<Vec<char>>()
        );
        for other in SAMPLES {
            assert_eq!(contains(text, other), text.contains(other));
            assert_eq!(starts_with(text, other), text.starts_with(other));
            assert_eq!(same_text(text, other), text == other);
        }
    }
}

#[test]
fn parts_are_joined_with_the_separator_between() {
    assert_eq!(join(&Vec::new(), "; "), "");
    assert_eq!(join(&vec!["a".to_string()], "; "), "a");
    assert_eq!(
        join(&vec!["a".to_string(), String::new(), "b".to_string()], "; "),
        "a; ; b"
    );
}

#[test]
fn decimal_notation_reads_back() {
    for n in [0, 9, 10, 99, 100, 1000, 65535, 1234567890, u32::MAX] {
        let text = u32_to_decimal(n);
        assert_eq!(text, n.to_string());
        assert_eq!(parse_u32(&text), Some(n));
    }
}

#[test]
fn numbers_are_parsed_as_by_the_standard_library() {
    for text in [
        "", "+", "-", "0", "+0", "-0", "007", "+42", "++1", "4294967295", "4294967296",
        "99999999999999999999999", "1 ", " 1", "1x", "x1", "\u{661}",
    ] {
        assert_eq!(parse_u32(text), text.parse::<u32>().ok(), "{text}");
    }
}
