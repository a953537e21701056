use vibe_studio::search::{
    build_matcher, is_binary_extension, is_binary_lowered, is_full, is_ignored_name, pattern_source,
    result_limit, search_content, search_line, SearchResult, DEFAULT_LIMIT,
};

fn search(query: &str, is_regex: bool, case_sensitive: bool, content: &str, limit: usize) -> Vec<SearchResult> {
    let matcher = build_matcher(query, is_regex, case_sensitive).unwrap();
    let mut results = Vec::new();
    search_content(&matcher, "f.txt", content, limit, &mut results);
    results
}

fn spans(results: &[SearchResult]) -> Vec<(usize, &str, usize, usize)> {
    results.iter().map(|r| (r.line_number, r.line_content.as_str(), r.match_start, r.match_end)).collect()
}

#[test]
fn limit_defaults_to_a_thousand() {
    assert_eq!(result_limit(None), 1000);
    assert_eq!(result_limit(None), DEFAULT_LIMIT);
    assert_eq!(result_limit(Some(5)), 5);
    assert_eq!(result_limit(Some(0)), 0);
}

#[test]
fn literal_query_is_escaped() {
    assert_eq!(pattern_source("a.b", false, true), "a\\.b");
    assert_eq!(pattern_source("a.b", false, false), "(?i)a\\.b");
    assert_eq!(pattern_source("a.b", true, true), "a.b");
    assert_eq!(pattern_source("a.b", true, false), "(?i)a.b");
    assert_eq!(
        pattern_source("\\.+*?()|[]{}^$#&-~", false, true),
        "\\\\\\.\\+\\*\\?\\(\\)\\|\\[\\]\\{\\}\\^\\$\\#\\&\\-\\~"
    );
    assert_eq!(pattern_source("plain text_1 %/!\"", false, true), "plain text_1 %/!\"");
    assert_eq!(pattern_source("", false, true), "");
    assert_eq!(pattern_source("", false, false), "(?i)");
}

#[test]
fn matcher_keeps_its_pattern() {
    assert_eq!(build_matcher("a.b", false, false).unwrap().pattern(), "(?i)a\\.b");
    assert_eq!(build_matcher("x+", true, true).unwrap().pattern(), "x+");
}

#[test]
fn invalid_pattern_is_reported() {
    let error = build_matcher("(", true, true).unwrap_err();
    assert!(error.starts_with("Invalid regex: "), "{}", error);
    assert!(error.len() > "Invalid regex: ".len());
    assert!(build_matcher("(", false, true).is_ok());
    assert!(build_matcher("[a", true, false).is_err());
}

#[test]
fn matching_lines_are_reported_with_their_numbers() {
    let results = search("foo", false, true, "foo\nbar\n  foo bar foo\nFOO\n", 10);
    assert_eq!(spans(&results), vec![(1, "foo", 0, 3), (3, "  foo bar foo", 2, 5)]);
    assert!(results.iter().all(|r| r.file_path == "f.txt"));
}

#[test]
fn case_is_ignored_unless_asked() {
    let results = search("foo", false, false, "foo\nbar\nFoO\n", 10);
    assert_eq!(spans(&results), vec![(1, "foo", 0, 3), (3, "FoO", 0, 3)]);
}

#[test]
fn regular_expression_query() {
    let results = search("b[a-z]+", true, true, "abc\nxyz\nfoo bar baz\n", 10);
    assert_eq!(spans(&results), vec![(1, "abc", 1, 3), (3, "foo bar baz", 4, 7)]);
    let literal = search("b[a-z]+", false, true, "abc\nb[a-z]+\n", 10);
    assert_eq!(spans(&literal), vec![(2, "b[a-z]+", 0, 7)]);
}

#[test]
fn match_offsets_are_in_bytes() {
    let results = search("x", false, true, "\u{e9}\u{e9}x\n", 10);
    assert_eq!(spans(&results), vec![(1, "\u{e9}\u{e9}x", 4, 5)]);
}

#[test]
fn lines_end_at_line_feeds() {
    let results = search(".*", true, true, "a\r\nb\n\nc\r", 10);
    assert_eq!(spans(&results), vec![(1, "a", 0, 1), (2, "b", 0, 1), (3, "", 0, 0), (4, "c\r", 0, 2)]);
    let results = search(".*", true, true, "a\n", 10);
    assert_eq!(spans(&results), vec![(1, "a", 0, 1)]);
    let results = search(".*", true, true, "a\r\r\n", 10);
    assert_eq!(spans(&results), vec![(1, "a\r", 0, 2)]);
    assert!(search(".*", true, true, "", 10).is_empty());
    let results = search("^$", true, true, "\n\n", 10);
    assert_eq!(spans(&results), vec![(1, "", 0, 0), (2, "", 0, 0)]);
}

#[test]
fn lines_agree_with_the_standard_split() {
    for content in ["", "\n", "a", "a\n", "a\nb", "a\r\nb\r\n", "\r", "\r\n", "x\r\ny\r", "\n\r\n\n", "a\n\nb\n"] {
        let expected: Vec<(usize, &str)> = content.lines().enumerate().map(|(i, l)| (i + 1, l)).collect();
        let results = search("", false, true, content, 100);
        let seen: Vec<(usize, &str)> = results.iter().map(|r| (r.line_number, r.line_content.as_str())).collect();
        assert_eq!(seen, expected, "content {:?}", content);
    }
}

#[test]
fn search_stops_at_the_limit() {
    let content = "a\na\na\na\na\n";
    assert_eq!(search("a", false, true, content, 3).len(), 3);
    assert_eq!(search("a", false, true, content, 5).len(), 5);
    assert_eq!(search("a", false, true, content, 9).len(), 5);
    assert!(search("a", false, true, content, 0).is_empty());

    let matcher = build_matcher("a", false, true).unwrap();
    let mut results = Vec::new();
    search_content(&matcher, "one", "a\nb\na\n", 3, &mut results);
    assert!(!is_full(&results, 3));
    search_content(&matcher, "two", "a\na\na\n", 3, &mut results);
    assert!(is_full(&results, 3));
    let seen: Vec<(&str, usize)> = results.iter().map(|r| (r.file_path.as_str(), r.line_number)).collect();
    assert_eq!(seen, vec![("one", 1), ("one", 3), ("two", 1)]);
    search_content(&matcher, "three", "a\n", 3, &mut results);
    assert_eq!(results.len(), 3);
}

#[test]
fn one_line_is_searched() {
    let matcher = build_matcher("lo", false, true).unwrap();
    let mut results = Vec::new();
    let line: Vec<char> = "hello".chars().collect();
    search_line(&matcher, "p", 7, &line, 1, &mut results);
    assert_eq!(spans(&results), vec![(7, "hello", 3, 5)]);
    search_line(&matcher, "p", 8, &line, 1, &mut results);
    assert_eq!(results.len(), 1);
    let other: Vec<char> = "help".chars().collect();
    let mut none = Vec::new();
    search_line(&matcher, "p", 1, &other, 5, &mut none);
    assert!(none.is_empty());
}

#[test]
fn hidden_and_build_entries_are_ignored() {
    for name in [".git", ".", ".env", "node_modules", "target", "dist", "build"] {
        assert!(is_ignored_name(name), "{}", name);
    }
    for name in ["src", "", "Target", "builds", "node_modules2", "a.b", "dist.txt"] {
        assert!(!is_ignored_name(name), "{}", name);
    }
}

#[test]
fn binary_extensions_are_not_searched() {
    for extension in ["exe", "dll", "so", "dylib", "png", "jpg", "jpeg", "gif", "ico", "woff", "woff2", "ttf", "eot"] {
        assert!(is_binary_extension(extension), "{}", extension);
        assert!(is_binary_extension(&extension.to_uppercase()), "{}", extension);
        assert!(is_binary_lowered(extension));
        assert!(!is_binary_lowered(&extension.to_uppercase()));
    }
    assert!(is_binary_extension("PnG"));
    for extension in ["rs", "txt", "", "pngx", "jp", "svg"] {
        assert!(!is_binary_extension(extension), "{}", extension);
    }
}
