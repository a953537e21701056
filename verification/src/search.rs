//! The rules behind the search command: how the query becomes a pattern,
//! which entries of the project tree are looked at, and what is reported of
//! a file's lines.
//!
//! Patterns are compiled and matched by the `regex` crate.

use vstd::prelude::*;
use crate::text::{chars_of, text_eq, text_of};

verus! {

/// The number of results at which a search stops, unless the caller names
/// another.
pub const DEFAULT_LIMIT: usize = 1000;

/// One line that matches.
#[derive(Debug, Clone)]
pub struct SearchResult {
    pub file_path: String,
    pub line_number: usize,
    pub line_content: String,
    pub match_start: usize,
    pub match_end: usize,
}

/// What a `SearchResult` holds.
pub struct SearchResultView {
    pub file_path: Seq<char>,
    pub line_number: usize,
    pub line_content: Seq<char>,
    pub match_start: usize,
    pub match_end: usize,
}

impl View for SearchResult {
    type V = SearchResultView;

    open spec fn view(&self) -> SearchResultView {
        SearchResultView {
            file_path: self.file_path@,
            line_number: self.line_number,
            line_content: self.line_content@,
            match_start: self.match_start,
            match_end: self.match_end,
        }
    }
}

/// What each result of a list holds.
pub open spec fn result_views(results: Seq<SearchResult>) -> Seq<SearchResultView> {
    results.map_values(|result: SearchResult| result@)
}

/// `regex::Regex`, of which the verifier knows the name alone.
#[verifier::external_type_specification]
#[verifier::external_body]
pub struct ExRegex(regex::Regex);

/// A pattern together with the expression that `Regex::new` compiled from
/// it. There is no other way to make one.
#[derive(Debug)]
pub struct Matcher {
    pattern: String,
    expression: regex::Regex,
}

impl View for Matcher {
    type V = Seq<char>;

    /// The pattern.
    closed spec fn view(&self) -> Seq<char> {
        self.pattern@
    }
}

impl Matcher {
    /// The pattern.
    pub fn pattern(&self) -> (pattern: &str)
        ensures
            pattern@ == self@,
    {
        self.pattern.as_str()
    }
}

/// The words in which `Regex::new` refuses a pattern, or `None` for a
/// pattern that it compiles.
pub uninterp spec fn regex_refusal(pattern: Seq<char>) -> Option<Seq<char>>;

/// Where the leftmost match of a pattern in a text begins and ends, in
/// bytes of the text, as `Regex::find` reports it for the expression that
/// `Regex::new` compiles from the pattern; `None` where the text has no
/// match.
pub uninterp spec fn leftmost_match(pattern: Seq<char>, text: Seq<char>) -> Option<(usize, usize)>;

/// The text in lower case, as `str::to_lowercase` gives it.
pub uninterp spec fn lowercase_of(text: Seq<char>) -> Seq<char>;

/// Whether a character means something in a pattern.
pub open spec fn is_meta(c: char) -> bool {
    c == '\\' || c == '.' || c == '+' || c == '*' || c == '?' || c == '(' || c == ')' || c == '|'
        || c == '[' || c == ']' || c == '{' || c == '}' || c == '^' || c == '$' || c == '#' || c
        == '&' || c == '-' || c == '~'
}

/// A text with a backslash before each character that means something in a
/// pattern.
pub open spec fn escaped(text: Seq<char>) -> Seq<char>
    decreases text.len(),
{
    if text.len() == 0 {
        Seq::empty()
    } else if is_meta(text.last()) {
        escaped(text.drop_last()).push('\\').push(text.last())
    } else {
        escaped(text.drop_last()).push(text.last())
    }
}

/// Calls `regex::escape`, which copies the text and puts a backslash before
/// each of the eighteen characters that mean something in a pattern.
#[verifier::external_body]
fn escape_pattern(text: &str) -> (quoted: String)
    ensures
        quoted@ == escaped(text@),
{
    regex::escape(text)
}

/// Calls `Regex::new`. A pattern that compiles gives a matcher that holds
/// the pattern and the expression made from it; one that does not gives the
/// error in words.
#[verifier::external_body]
fn compile_pattern(pattern: &str) -> (compiled: Result<Matcher, String>)
    ensures
        match compiled {
            Ok(matcher) => regex_refusal(pattern@) is None && matcher@ == pattern@,
            Err(words) => regex_refusal(pattern@) == Some(words@),
        },
{
    match regex::Regex::new(pattern) {
        Ok(expression) => Ok(Matcher { pattern: pattern.to_string(), expression }),
        Err(error) => Err(error.to_string()),
    }
}

/// Calls `Regex::find` on the matcher's expression and gives the start and
/// the end of the match.
#[verifier::external_body]
fn find_first(matcher: &Matcher, text: &str) -> (found: Option<(usize, usize)>)
    ensures
        found == leftmost_match(matcher@, text@),
{
    match matcher.expression.find(text) {
        Some(found) => Some((found.start(), found.end())),
        None => None,
    }
}

/// Calls `str::to_lowercase`.
#[verifier::external_body]
fn lowercase(text: &str) -> (lowered: String)
    ensures
        lowered@ == lowercase_of(text@),
{
    text.to_lowercase()
}

/// The pattern that a query stands for: the query itself where it is a
/// regular expression, and the query taken literally otherwise; with the
/// flag `(?i)` before it unless case matters.
pub open spec fn pattern_of(query: Seq<char>, is_regex: bool, case_sensitive: bool) -> Seq<char> {
    let body = if is_regex {
        query
    } else {
        escaped(query)
    };
    if case_sensitive {
        body
    } else {
        "(?i)"@ + body
    }
}

/// What is reported of a pattern that does not compile.
pub open spec fn pattern_failure(words: Seq<char>) -> Seq<char> {
    "Invalid regex: "@ + words
}

/// The number of results at which a search stops.
pub fn result_limit(max_results: Option<usize>) -> (limit: usize)
    ensures
        limit == match max_results {
            Some(wanted) => wanted,
            None => DEFAULT_LIMIT,
        },
{
    match max_results {
        Some(wanted) => wanted,
        None => DEFAULT_LIMIT,
    }
}

/// Writes the pattern that a query stands for.
pub fn pattern_source(query: &str, is_regex: bool, case_sensitive: bool) -> (pattern: String)
    ensures
        pattern@ == pattern_of(query@, is_regex, case_sensitive),
{
    let body = if is_regex {
        query.to_owned()
    } else {
        escape_pattern(query)
    };
    if case_sensitive {
        body
    } else {
        let mut pattern = "(?i)".to_owned();
        pattern.append(body.as_str());
        pattern
    }
}

/// Reports a pattern that did not compile; hands on one that did.
pub fn accept_pattern(compiled: Result<Matcher, String>) -> (accepted: Result<Matcher, String>)
    ensures
        match (compiled, accepted) {
            (Ok(given), Ok(taken)) => taken == given,
            (Err(words), Err(message)) => message@ == pattern_failure(words@),
            _ => false,
        },
{
    match compiled {
        Ok(matcher) => Ok(matcher),
        Err(words) => {
            let mut message = "Invalid regex: ".to_owned();
            message.append(words.as_str());
            Err(message)
        },
    }
}

/// Compiles the pattern that a query stands for.
pub fn build_matcher(query: &str, is_regex: bool, case_sensitive: bool) -> (matcher: Result<
    Matcher,
    String,
>)
    ensures
        match matcher {
            Ok(compiled) => {
                &&& regex_refusal(pattern_of(query@, is_regex, case_sensitive)) is None
                &&& compiled@ == pattern_of(query@, is_regex, case_sensitive)
            },
            Err(message) => match regex_refusal(pattern_of(query@, is_regex, case_sensitive)) {
                Some(words) => message@ == pattern_failure(words),
                None => false,
            },
        },
{
    let pattern = pattern_source(query, is_regex, case_sensitive);
    accept_pattern(compile_pattern(pattern.as_str()))
}

/// Whether an entry of the project tree is passed over, with all below it:
/// its name begins with a dot, or it is one of the directories that hold
/// what was installed or built.
pub open spec fn is_ignored(name: Seq<char>) -> bool {
    ||| (name.len() > 0 && name[0] == '.')
    ||| name == "node_modules"@
    ||| name == "target"@
    ||| name == "dist"@
    ||| name == "build"@
}

/// Whether an entry of the project tree is passed over.
pub fn is_ignored_name(name: &str) -> (ignored: bool)
    ensures
        ignored == is_ignored(name@),
{
    let chars = chars_of(name);
    (chars.len() > 0 && chars[0] == '.') || text_eq(name, "node_modules") || text_eq(
        name,
        "target",
    ) || text_eq(name, "dist") || text_eq(name, "build")
}

/// Whether a lower-case file extension marks a file that holds no text.
pub open spec fn is_binary(lowered: Seq<char>) -> bool {
    ||| lowered == "exe"@
    ||| lowered == "dll"@
    ||| lowered == "so"@
    ||| lowered == "dylib"@
    ||| lowered == "png"@
    ||| lowered == "jpg"@
    ||| lowered == "jpeg"@
    ||| lowered == "gif"@
    ||| lowered == "ico"@
    ||| lowered == "woff"@
    ||| lowered == "woff2"@
    ||| lowered == "ttf"@
    ||| lowered == "eot"@
}

/// Whether a lower-case file extension marks a file that holds no text.
pub fn is_binary_lowered(lowered: &str) -> (binary: bool)
    ensures
        binary == is_binary(lowered@),
{
    text_eq(lowered, "exe") || text_eq(lowered, "dll") || text_eq(lowered, "so") || text_eq(
        lowered,
        "dylib",
    ) || text_eq(lowered, "png") || text_eq(lowered, "jpg") || text_eq(lowered, "jpeg")
        || text_eq(lowered, "gif") || text_eq(lowered, "ico") || text_eq(lowered, "woff")
        || text_eq(lowered, "woff2") || text_eq(lowered, "ttf") || text_eq(lowered, "eot")
}

/// Whether a file extension, in whatever case, marks a file that holds no
/// text and is not searched.
pub fn is_binary_extension(extension: &str) -> (binary: bool)
    ensures
        binary == is_binary(lowercase_of(extension@)),
{
    let lowered = lowercase(extension);
    is_binary_lowered(lowered.as_str())
}

/// A line without the carriage return at its end, if it has one.
pub open spec fn without_return(line: Seq<char>) -> Seq<char> {
    if line.len() > 0 && line.last() == '\r' {
        line.drop_last()
    } else {
        line
    }
}

/// The lines of a text that end in a line feed, without the line feed and
/// without a carriage return before it.
pub open spec fn closed_lines(text: Seq<char>) -> Seq<Seq<char>>
    decreases text.len(),
{
    if text.len() == 0 {
        Seq::empty()
    } else if text.last() == '\n' {
        closed_lines(text.drop_last()).push(without_return(open_line(text.drop_last())))
    } else {
        closed_lines(text.drop_last())
    }
}

/// What follows the last line feed of a text.
pub open spec fn open_line(text: Seq<char>) -> Seq<char>
    decreases text.len(),
{
    if text.len() == 0 || text.last() == '\n' {
        Seq::empty()
    } else {
        open_line(text.drop_last()).push(text.last())
    }
}

/// The lines of a text. A line ends at a line feed, or at a carriage return
/// followed by one; the last line need not end.
pub open spec fn text_lines(text: Seq<char>) -> Seq<Seq<char>> {
    if open_line(text).len() > 0 {
        closed_lines(text).push(open_line(text))
    } else {
        closed_lines(text)
    }
}

/// What is reported of a line: where the pattern first matches in it, if it
/// does.
pub open spec fn line_result(
    pattern: Seq<char>,
    file_path: Seq<char>,
    number: usize,
    line: Seq<char>,
) -> Option<SearchResultView> {
    match leftmost_match(pattern, line) {
        Some((start, end)) => Some(
            SearchResultView {
                file_path,
                line_number: number,
                line_content: line,
                match_start: start,
                match_end: end,
            },
        ),
        None => None,
    }
}

/// The results after the lines of a file have been searched: those found
/// before, then one for each line that matches, in order and with the
/// line's number, counted from 1; but no more once there are `limit`.
pub open spec fn results_after(
    pattern: Seq<char>,
    file_path: Seq<char>,
    lines: Seq<Seq<char>>,
    limit: usize,
    found: Seq<SearchResultView>,
) -> Seq<SearchResultView>
    decreases lines.len(),
{
    if lines.len() == 0 {
        found
    } else {
        let before = results_after(pattern, file_path, lines.drop_last(), limit, found);
        if before.len() >= limit {
            before
        } else {
            match line_result(pattern, file_path, lines.len() as usize, lines.last()) {
                Some(result) => before.push(result),
                None => before,
            }
        }
    }
}

/// Once the limit is reached, more lines change nothing.
pub proof fn lemma_results_stay_full(
    pattern: Seq<char>,
    file_path: Seq<char>,
    lines: Seq<Seq<char>>,
    limit: usize,
    found: Seq<SearchResultView>,
    n: int,
)
    requires
        0 <= n <= lines.len(),
        results_after(pattern, file_path, lines.take(n), limit, found).len() >= limit,
    ensures
        results_after(pattern, file_path, lines, limit, found) == results_after(
            pattern,
            file_path,
            lines.take(n),
            limit,
            found,
        ),
    decreases lines.len(),
{
    if n == lines.len() {
        assert(lines.take(n) =~= lines);
    } else {
        assert(lines.drop_last().take(n) =~= lines.take(n));
        lemma_results_stay_full(pattern, file_path, lines.drop_last(), limit, found, n);
    }
}

/// A search never gives more than `limit` results, unless it began with
/// more.
pub proof fn lemma_results_within_limit(
    pattern: Seq<char>,
    file_path: Seq<char>,
    lines: Seq<Seq<char>>,
    limit: usize,
    found: Seq<SearchResultView>,
)
    requires
        found.len() <= limit,
    ensures
        found.len() <= results_after(pattern, file_path, lines, limit, found).len() <= limit,
    decreases lines.len(),
{
    if lines.len() > 0 {
        lemma_results_within_limit(pattern, file_path, lines.drop_last(), limit, found);
    }
}

/// Searches one line and adds what is found to the results, unless they are
/// full.
pub fn search_line(
    matcher: &Matcher,
    file_path: &str,
    number: usize,
    line: &[char],
    limit: usize,
    results: &mut Vec<SearchResult>,
)
    ensures
        result_views(final(results)@) == if old(results)@.len() >= limit {
            result_views(old(results)@)
        } else {
            match line_result(matcher@, file_path@, number, line@) {
                Some(result) => result_views(old(results)@).push(result),
                None => result_views(old(results)@),
            }
        },
{
    if results.len() >= limit {
        return ;
    }
    let text = text_of(line);
    if let Some((start, end)) = find_first(matcher, text.as_str()) {
        let result = SearchResult {
            file_path: file_path.to_owned(),
            line_number: number,
            line_content: text,
            match_start: start,
            match_end: end,
        };
        results.push(result);
    }
}

/// Searches the lines of a file's content and adds what is found to the
/// results, up to `limit` of them.
pub fn search_content(
    matcher: &Matcher,
    file_path: &str,
    content: &str,
    limit: usize,
    results: &mut Vec<SearchResult>,
)
    ensures
        result_views(final(results)@) == results_after(
            matcher@,
            file_path@,
            text_lines(content@),
            limit,
            result_views(old(results)@),
        ),
{
    let chars = chars_of(content);
    let ghost pattern = matcher@;
    let ghost found = result_views(results@);
    let mut line: Vec<char> = Vec::new();
    let mut count: usize = 0;
    let mut i: usize = 0;
    let total: usize = chars.len();
    while i < total
        invariant
            total == chars@.len(),
            i <= chars@.len(),
            chars@ == content@,
            count + line@.len() <= i,
            count == closed_lines(chars@.take(i as int)).len(),
            line@ == open_line(chars@.take(i as int)),
            pattern == matcher@,
            result_views(results@) == results_after(
                pattern,
                file_path@,
                closed_lines(chars@.take(i as int)),
                limit,
                found,
            ),
        decreases chars@.len() - i,
    {
        let c = chars[i];
        assert(chars@.take(i + 1).drop_last() =~= chars@.take(i as int));
        if c == '\n' {
            if line.len() > 0 && line[line.len() - 1] == '\r' {
                line.pop();
            }
            count += 1;
            let ghost closed = closed_lines(chars@.take(i + 1));
            assert(closed.drop_last() =~= closed_lines(chars@.take(i as int)));
            search_line(matcher, file_path, count, line.as_slice(), limit, results);
            line = Vec::new();
        } else {
            line.push(c);
        }
        i += 1;
    }
    assert(chars@.take(i as int) =~= chars@);
    if line.len() > 0 {
        let ghost lines = text_lines(content@);
        assert(lines.drop_last() =~= closed_lines(content@));
        search_line(matcher, file_path, count + 1, line.as_slice(), limit, results);
    }
}

/// Whether a search has all the results that it may give.
pub fn is_full(results: &Vec<SearchResult>, limit: usize) -> (full: bool)
    ensures
        full == (results@.len() >= limit),
{
    results.len() >= limit
}

} // verus!
