use vibe_studio::terminal::{exit_code, Platform, ERROR_EVENT, EXIT_EVENT, NO_EXIT_CODE, OUTPUT_EVENT};
use vibe_studio::text::{
    all_space, bytes_eq, char_is_space, chars_end_with, chars_eq, chars_of, chars_start_with,
    failure, find_char, last_word_span, parse_decimal, parse_digits, parse_unsigned, text_eq,
    text_of,
};

fn chars(text: &str) -> Vec<char> {
    text.chars().collect()
}

#[test]
fn byte_strings_compare() {
    assert!(bytes_eq(b"", b""));
    assert!(bytes_eq(b"abc", b"abc"));
    assert!(!bytes_eq(b"abc", b"abd"));
    assert!(!bytes_eq(b"abc", b"ab"));
}

#[test]
fn runs_of_characters_compare() {
    assert!(chars_eq(&chars(""), &chars("")));
    assert!(chars_eq(&chars("[DONE]"), &chars("[DONE]")));
    assert!(!chars_eq(&chars("[DONE]"), &chars("[DONE] ")));
    assert!(!chars_eq(&chars("[DONE]"), &chars("[done]")));
    assert!(chars_start_with(&chars("data: x"), &chars("data: ")));
    assert!(chars_start_with(&chars("abc"), &chars("")));
    assert!(chars_start_with(&chars("abc"), &chars("abc")));
    assert!(!chars_start_with(&chars("ab"), &chars("abc")));
    assert!(!chars_start_with(&chars("xbc"), &chars("ab")));
    assert!(all_space(&chars("")));
    assert!(all_space(&chars(" \t\r\n\u{3000}")));
    assert!(!all_space(&chars("  x ")));
}

#[test]
fn texts_compare() {
    assert!(text_eq("", ""));
    assert!(text_eq("caf\u{e9}", "caf\u{e9}"));
    assert!(!text_eq("cafe", "caf\u{e9}"));
    assert!(!text_eq("a", "A"));
}

#[test]
fn characters_round_trip() {
    for text in ["", "abc", "caf\u{e9} \u{1f600}\n"] {
        assert_eq!(chars_of(text), chars(text));
        assert_eq!(text_of(&chars(text)), text);
    }
}

#[test]
fn decimal_numbers() {
    assert_eq!(parse_decimal("0"), Some(0));
    assert_eq!(parse_decimal("007"), Some(7));
    assert_eq!(parse_decimal("1234567890"), Some(1234567890));
    assert_eq!(parse_decimal("18446744073709551615"), Some(u64::MAX));
    assert_eq!(parse_decimal("18446744073709551616"), None);
    assert_eq!(parse_decimal("99999999999999999999"), None);
    assert_eq!(parse_decimal("184467440737095516150"), None);
    assert_eq!(parse_decimal(""), None);
    assert_eq!(parse_decimal("+1"), None);
    assert_eq!(parse_decimal("-1"), None);
    assert_eq!(parse_decimal("1.0"), None);
    assert_eq!(parse_decimal("1e3"), None);
    assert_eq!(parse_decimal("12a"), None);
    assert_eq!(parse_decimal("\u{661}"), None);
    assert_eq!(parse_digits(&chars("42")), Some(42));
}

#[test]
fn unsigned_numbers_agree_with_the_standard_parser() {
    for text in ["0", "+0", "+12", "12", "", "+", "++1", "-1", "1+", " 1", "1 ", "18446744073709551615", "+18446744073709551615", "18446744073709551616", "0x10", "1_000"] {
        assert_eq!(parse_unsigned(&chars(text)), text.parse::<u64>().ok(), "text {:?}", text);
    }
}

#[test]
fn first_character_is_found() {
    assert_eq!(find_char(&chars("a%b%"), '%'), Some(1));
    assert_eq!(find_char(&chars("%"), '%'), Some(0));
    assert_eq!(find_char(&chars("abc"), '%'), None);
    assert_eq!(find_char(&chars(""), '%'), None);
    assert_eq!(find_char(&chars("\u{e9}%"), '%'), Some(1));
}

#[test]
fn white_space_agrees_with_the_standard() {
    for code in 0u32..0x11_0000 {
        if let Some(c) = char::from_u32(code) {
            assert_eq!(char_is_space(c), c.is_whitespace(), "U+{:04X}", code);
        }
    }
}

#[test]
fn last_word_is_found() {
    let cases = [
        ("pulling  45", 9, 11),
        ("pulling 45   ", 8, 10),
        ("45", 0, 2),
        ("", 0, 0),
        ("   ", 0, 0),
        ("a\tb\u{a0}c ", 4, 5),
    ];
    for (text, start, stop) in cases {
        let all = chars(text);
        assert_eq!(last_word_span(&all, all.len()), (start, stop), "text {:?}", text);
        let word: String = all[start..stop].iter().collect();
        assert_eq!(Some(word.as_str()), text.split_whitespace().last().or(Some("")));
    }
    let all = chars("ab cd ef");
    assert_eq!(last_word_span(&all, 5), (3, 5));
    assert_eq!(last_word_span(&all, 3), (0, 2));
    assert_eq!(last_word_span(&all, 0), (0, 0));
}

#[test]
fn endings_are_found() {
    assert!(chars_end_with(&chars("a.json"), &chars(".json")));
    assert!(chars_end_with(&chars(".json"), &chars(".json")));
    assert!(chars_end_with(&chars("abc"), &chars("")));
    assert!(!chars_end_with(&chars("json"), &chars(".json")));
    assert!(!chars_end_with(&chars("a.jsom"), &chars(".json")));
}

#[test]
fn failure_is_worded() {
    assert_eq!(failure("Failed to read file", "not found"), "Failed to read file: not found");
    assert_eq!(failure("", ""), ": ");
}

#[test]
fn shell_follows_the_platform() {
    assert_eq!(Platform::Windows.shell_command(), ("powershell", "-Command"));
    assert_eq!(Platform::MacOs.shell_command(), ("bash", "-c"));
    assert_eq!(Platform::Other.shell_command(), ("bash", "-c"));
    assert_eq!(Platform::Windows.shell_name(), "PowerShell");
    assert_eq!(Platform::MacOs.shell_name(), "zsh");
    assert_eq!(Platform::Other.shell_name(), "bash");
}

#[test]
fn exit_code_defaults_to_minus_one() {
    assert_eq!(exit_code(Some(0)), 0);
    assert_eq!(exit_code(Some(3)), 3);
    assert_eq!(exit_code(None), -1);
    assert_eq!(NO_EXIT_CODE, -1);
    assert_eq!(
        (OUTPUT_EVENT, ERROR_EVENT, EXIT_EVENT),
        ("terminal-output", "terminal-error", "terminal-exit")
    );
}
